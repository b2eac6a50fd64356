//! Signing in: PKCE, the authorization URL, the token requests and answers, the loopback
//! callback, and what a token refresh leads to.

use vstd::prelude::*;

use crate::error::{code_of, exit_code_of, CliError};
use crate::personal::PersonalProfile;
use crate::text::{str_eq, trim, trim_seq};
use crate::urls::{append_query_pair, join_url, opt_str_view, url_append_pair, url_join};

verus! {

/// The registered public OAuth client of the CLI; it has no secret.
pub open spec fn client_id_value() -> Seq<char> {
    "d6e-cli"@
}

/// The CLI's OAuth client ID.
pub fn client_id() -> (r: &'static str)
    ensures
        r@ == client_id_value(),
{
    "d6e-cli"
}

/// The length of base64 without padding for `n` input bytes.
pub open spec fn base64_no_pad_len(n: nat) -> nat {
    (n / 3) * 4 + if n % 3 == 1 {
        2nat
    } else if n % 3 == 2 {
        3nat
    } else {
        0nat
    }
}

/// Whether `c` belongs to the URL-safe base64 alphabet `A–Z a–z 0–9 - _`.
pub open spec fn is_base64_url_char(c: char) -> bool {
    ('A' <= c && c <= 'Z') || ('a' <= c && c <= 'z') || ('0' <= c && c <= '9') || c == '-' || c
        == '_'
}

/// Whether `c` is an unreserved URI character, the alphabet of a PKCE verifier.
pub open spec fn is_unreserved(c: char) -> bool {
    ('A' <= c && c <= 'Z') || ('a' <= c && c <= 'z') || ('0' <= c && c <= '9') || c == '-' || c
        == '.' || c == '_' || c == '~'
}

/// What `base64::engine::general_purpose::URL_SAFE_NO_PAD.encode` makes of `bytes`.
pub uninterp spec fn base64_url_no_pad(bytes: Seq<u8>) -> Seq<char>;

/// What `sha2::Sha256::digest` makes of `bytes`.
pub uninterp spec fn sha256(bytes: Seq<u8>) -> Seq<u8>;

/// Calls `base64::Engine::encode` with `URL_SAFE_NO_PAD`.
/// Claims that the text is the named function `base64_url_no_pad` of the bytes, that its length
/// is the one `base64::encoded_len` gives without padding, and that it uses only the URL-safe
/// alphabet, as the crate documents.
#[verifier::external_body]
fn encode_base64_url(bytes: &[u8]) -> (r: String)
    ensures
        r@ == base64_url_no_pad(bytes@),
        r@.len() == base64_no_pad_len(bytes@.len()),
        forall|k: int| 0 <= k < r@.len() ==> is_base64_url_char(#[trigger] r@[k]),
{
    base64::Engine::encode(&base64::engine::general_purpose::URL_SAFE_NO_PAD, bytes)
}

/// Calls `sha2::Sha256::digest`.
/// Claims that the digest is the named function `sha256` of the bytes and has 32 bytes.
#[verifier::external_body]
fn sha256_digest(bytes: &[u8]) -> (r: Vec<u8>)
    ensures
        r@ == sha256(bytes@),
        r@.len() == 32,
{
    <sha2::Sha256 as sha2::Digest>::digest(bytes).to_vec()
}

/// Fills 32 bytes with `getrandom::fill`. Claims only that, on success, there are 32 bytes;
/// their values are chance.
#[verifier::external_body]
fn random_bytes_32() -> (r: Option<Vec<u8>>)
    ensures
        r matches Some(v) ==> v@.len() == 32,
{
    let mut bytes = [0u8; 32];
    getrandom::fill(&mut bytes).ok()?;
    Some(bytes.to_vec())
}

/// Overwrites the bytes with zeros and empties the vector, with `zeroize::Zeroize::zeroize`.
#[verifier::external_body]
fn zeroize_bytes(bytes: &mut Vec<u8>)
    ensures
        final(bytes)@ == Seq::<u8>::empty(),
{
    zeroize::Zeroize::zeroize(bytes);
}

/// The secrets of one sign-in attempt: the PKCE verifier, the OAuth state, and the S256
/// challenge derived from the verifier.
pub struct AuthAttempt {
    pub verifier: String,
    pub state: String,
    pub challenge: String,
}

/// Whether `s` may be a PKCE verifier: 43 to 128 unreserved characters.
pub open spec fn is_pkce_verifier(s: Seq<char>) -> bool {
    43 <= s.len() <= 128 && forall|k: int| 0 <= k < s.len() ==> is_unreserved(#[trigger] s[k])
}

/// The S256 challenge of a verifier: base64url, without padding, of the SHA-256 of its UTF-8.
pub open spec fn s256_challenge(verifier: Seq<char>) -> Seq<char> {
    base64_url_no_pad(sha256(vstd::utf8::encode_utf8(verifier)))
}

impl AuthAttempt {
    /// The attempt whose verifier and state encode the given random bytes; both byte buffers
    /// are wiped after use.
    pub fn from_random(verifier_bytes: Vec<u8>, state_bytes: Vec<u8>) -> (r: AuthAttempt)
        requires
            verifier_bytes@.len() == 32,
            state_bytes@.len() == 32,
        ensures
            r.verifier@ == base64_url_no_pad(verifier_bytes@),
            r.state@ == base64_url_no_pad(state_bytes@),
            r.challenge@ == s256_challenge(r.verifier@),
            is_pkce_verifier(r.verifier@),
            is_pkce_verifier(r.state@),
            r.verifier@.len() == 43 && r.state@.len() == 43,
    {
        let mut verifier_bytes = verifier_bytes;
        let mut state_bytes = state_bytes;
        let verifier = encode_base64_url(verifier_bytes.as_slice());
        let state = encode_base64_url(state_bytes.as_slice());
        zeroize_bytes(&mut verifier_bytes);
        zeroize_bytes(&mut state_bytes);
        let digest = sha256_digest(verifier.as_str().as_bytes());
        let challenge = encode_base64_url(digest.as_slice());
        proof {
            assert(verifier@.len() == 43);
            assert forall|k: int| 0 <= k < verifier@.len() implies is_unreserved(
                #[trigger] verifier@[k],
            ) by {
                assert(is_base64_url_char(verifier@[k]));
            }
            assert forall|k: int| 0 <= k < state@.len() implies is_unreserved(
                #[trigger] state@[k],
            ) by {
                assert(is_base64_url_char(state@[k]));
            }
        }
        AuthAttempt { verifier, state, challenge }
    }

    /// A fresh attempt with a random verifier and state.
    pub fn new() -> (r: Result<AuthAttempt, CliError>)
        ensures
            match r {
                Ok(a) => is_pkce_verifier(a.verifier@) && is_pkce_verifier(a.state@)
                    && a.verifier@.len() == 43 && a.state@.len() == 43 && a.challenge@
                    == s256_challenge(a.verifier@),
                Err(e) => e matches CliError::Authentication { message } && (message@
                    == "could not generate PKCE verifier"@ || message@
                    == "could not generate OAuth state"@),
            },
    {
        let verifier_bytes = match random_bytes_32() {
            Some(b) => b,
            None => {
                return Err(CliError::Authentication { message: String::from_str("could not generate PKCE verifier") });
            },
        };
        let state_bytes = match random_bytes_32() {
            Some(b) => b,
            None => {
                return Err(CliError::Authentication { message: String::from_str("could not generate OAuth state") });
            },
        };
        Ok(AuthAttempt::from_random(verifier_bytes, state_bytes))
    }

    /// The sign-in URL: `auth/login` under D6E Auth with the public client ID, the exact
    /// redirect URI, the state, and the S256 challenge. No client secret is part of it.
    pub fn authorization_url(&self, auth_url: &str, redirect_uri: &str) -> (r: Result<
        String,
        CliError,
    >)
        ensures
            match r {
                Ok(u) => authorization_url_spec(
                    auth_url@,
                    redirect_uri@,
                    self.state@,
                    self.challenge@,
                ) == Some(u@),
                Err(e) => e matches CliError::InvalidInput { message } && message@
                    == "could not construct authorization URL"@ && authorization_url_spec(
                    auth_url@,
                    redirect_uri@,
                    self.state@,
                    self.challenge@,
                ) is None,
            },
    {
        let refuse = CliError::InvalidInput { message: String::from_str("could not construct authorization URL") };
        let mut url = match join_url(auth_url, "auth/login") {
            Some(u) => u,
            None => return Err(refuse),
        };
        url = match append_query_pair(url.as_str(), "client_id", client_id()) {
            Some(u) => u,
            None => return Err(refuse),
        };
        url = match append_query_pair(url.as_str(), "redirect_uri", redirect_uri) {
            Some(u) => u,
            None => return Err(refuse),
        };
        url = match append_query_pair(url.as_str(), "state", self.state.as_str()) {
            Some(u) => u,
            None => return Err(refuse),
        };
        url = match append_query_pair(url.as_str(), "code_challenge", self.challenge.as_str()) {
            Some(u) => u,
            None => return Err(refuse),
        };
        match append_query_pair(url.as_str(), "code_challenge_method", "S256") {
            Some(u) => Ok(u),
            None => Err(refuse),
        }
    }
}

/// `url` with one more query pair, once `url` exists.
pub open spec fn then_append(url: Option<Seq<char>>, key: Seq<char>, value: Seq<char>) -> Option<
    Seq<char>,
> {
    match url {
        Some(u) => url_append_pair(u, key, value),
        None => None,
    }
}

/// The sign-in URL: `auth/login` resolved against D6E Auth, with the query pairs
/// `client_id=d6e-cli`, `redirect_uri`, `state`, `code_challenge` and
/// `code_challenge_method=S256`, in this order.
pub open spec fn authorization_url_spec(
    auth_url: Seq<char>,
    redirect_uri: Seq<char>,
    state: Seq<char>,
    challenge: Seq<char>,
) -> Option<Seq<char>> {
    let base = url_join(auth_url, "auth/login"@);
    let u1 = then_append(base, "client_id"@, client_id_value());
    let u2 = then_append(u1, "redirect_uri"@, redirect_uri);
    let u3 = then_append(u2, "state"@, state);
    let u4 = then_append(u3, "code_challenge"@, challenge);
    then_append(u4, "code_challenge_method"@, "S256"@)
}

/// `url` with the query pairs `pairs` appended in order, once `url` exists.
pub open spec fn append_all(url: Option<Seq<char>>, pairs: Seq<(Seq<char>, Seq<char>)>) -> Option<
    Seq<char>,
>
    decreases pairs.len(),
{
    if pairs.len() == 0 {
        url
    } else {
        append_all(then_append(url, pairs[0].0, pairs[0].1), pairs.drop_first())
    }
}

/// How many of `pairs` have the key `key`.
pub open spec fn key_count(pairs: Seq<(Seq<char>, Seq<char>)>, key: Seq<char>) -> nat
    decreases pairs.len(),
{
    if pairs.len() == 0 {
        0
    } else {
        key_count(pairs.drop_first(), key) + if pairs[0].0 == key {
            1nat
        } else {
            0nat
        }
    }
}

/// The sign-in URL is `auth/login` under D6E Auth with five query pairs appended, and those
/// pairs carry the attempt itself: `state` appears once, with the attempt's own state (the
/// value the callback must echo); `code_challenge` once, with the attempt's challenge;
/// `redirect_uri` once, with the exact redirect URI; `client_id` is `d6e-cli`, the method is
/// `S256`, and no `client_secret` is sent.
pub proof fn sign_in_url_carries_the_attempt(
    auth_url: Seq<char>,
    redirect_uri: Seq<char>,
    state: Seq<char>,
    challenge: Seq<char>,
)
    ensures
        exists|pairs: Seq<(Seq<char>, Seq<char>)>|
            {
                &&& authorization_url_spec(auth_url, redirect_uri, state, challenge) == append_all(
                    url_join(auth_url, "auth/login"@),
                    pairs,
                )
                &&& pairs.len() == 5
                &&& key_count(pairs, "state"@) == 1
                &&& key_count(pairs, "code_challenge"@) == 1
                &&& key_count(pairs, "redirect_uri"@) == 1
                &&& key_count(pairs, "client_id"@) == 1
                &&& key_count(pairs, "code_challenge_method"@) == 1
                &&& key_count(pairs, "client_secret"@) == 0
                &&& forall|i: int|
                    0 <= i < pairs.len() ==> {
                        &&& (#[trigger] pairs[i]).0 == "state"@ ==> pairs[i].1 == state
                        &&& pairs[i].0 == "code_challenge"@ ==> pairs[i].1 == challenge
                        &&& pairs[i].0 == "redirect_uri"@ ==> pairs[i].1 == redirect_uri
                        &&& pairs[i].0 == "client_id"@ ==> pairs[i].1 == "d6e-cli"@
                        &&& pairs[i].0 == "code_challenge_method"@ ==> pairs[i].1 == "S256"@
                    }
            },
{
    reveal_strlit("state");
    reveal_strlit("code_challenge");
    reveal_strlit("redirect_uri");
    reveal_strlit("client_id");
    reveal_strlit("code_challenge_method");
    reveal_strlit("client_secret");
    reveal_strlit("d6e-cli");
    reveal_strlit("S256");
    let pairs: Seq<(Seq<char>, Seq<char>)> = seq![
        ("client_id"@, "d6e-cli"@),
        ("redirect_uri"@, redirect_uri),
        ("state"@, state),
        ("code_challenge"@, challenge),
        ("code_challenge_method"@, "S256"@),
    ];
    let base = url_join(auth_url, "auth/login"@);
    let p1 = pairs.drop_first();
    let p2 = p1.drop_first();
    let p3 = p2.drop_first();
    let p4 = p3.drop_first();
    let p5 = p4.drop_first();
    assert(p5.len() == 0);
    let u1 = then_append(base, "client_id"@, "d6e-cli"@);
    let u2 = then_append(u1, "redirect_uri"@, redirect_uri);
    let u3 = then_append(u2, "state"@, state);
    let u4 = then_append(u3, "code_challenge"@, challenge);
    let u5 = then_append(u4, "code_challenge_method"@, "S256"@);
    assert(p1[0] == ("redirect_uri"@, redirect_uri));
    assert(p2[0] == ("state"@, state));
    assert(p3[0] == ("code_challenge"@, challenge));
    assert(p4[0] == ("code_challenge_method"@, "S256"@));
    assert(append_all(u5, p5) == u5);
    assert(append_all(u4, p4) == append_all(u5, p5));
    assert(append_all(u3, p3) == append_all(u4, p4));
    assert(append_all(u2, p2) == append_all(u3, p3));
    assert(append_all(u1, p1) == append_all(u2, p2));
    assert(append_all(base, pairs) == append_all(u1, p1));
    assert(authorization_url_spec(auth_url, redirect_uri, state, challenge) == u5);
    reveal_with_fuel(key_count, 6);
    assert(key_count(p5, "state"@) == 0);
    assert("state"@[0] != "code_challenge"@[0]);
    assert("state"@[0] != "client_id"@[0]);
    assert("state"@[0] != "redirect_uri"@[0]);
    assert("state"@[0] != "code_challenge_method"@[0]);
    assert("client_id"@.len() != "code_challenge"@.len());
    assert("client_id"@.len() != "code_challenge_method"@.len());
    assert("code_challenge"@.len() != "code_challenge_method"@.len());
    assert("redirect_uri"@[0] != "client_id"@[0]);
    assert("redirect_uri"@[0] != "code_challenge"@[0]);
    assert("redirect_uri"@[0] != "code_challenge_method"@[0]);
    assert("client_secret"@.len() != "client_id"@.len());
    assert("client_secret"@.len() != "code_challenge"@.len());
    assert("client_secret"@.len() != "code_challenge_method"@.len());
    assert("client_secret"@[0] != "state"@[0]);
    assert("client_secret"@[0] != "redirect_uri"@[0]);
    assert(key_count(pairs, "state"@) == 1);
    assert(key_count(pairs, "code_challenge"@) == 1);
    assert(key_count(pairs, "redirect_uri"@) == 1);
    assert(key_count(pairs, "client_id"@) == 1);
    assert(key_count(pairs, "code_challenge_method"@) == 1);
    assert(key_count(pairs, "client_secret"@) == 0);
}

/// The URL of D6E Auth's token endpoint.
pub fn token_url(auth_url: &str) -> (r: Result<String, CliError>)
    ensures
        match r {
            Ok(u) => url_join(auth_url@, "api/v1/auth/token"@) == Some(u@),
            Err(e) => e matches CliError::InvalidInput { message } && message@
                == "could not construct token URL"@ && url_join(auth_url@, "api/v1/auth/token"@)
                is None,
        },
{
    match join_url(auth_url, "api/v1/auth/token") {
        Some(u) => Ok(u),
        None => Err(CliError::InvalidInput { message: String::from_str("could not construct token URL") }),
    }
}

/// A request to the token endpoint. It never carries a client secret.
pub struct TokenRequest {
    pub grant_type: String,
    pub client_id: String,
    pub code: Option<String>,
    pub code_verifier: Option<String>,
    pub redirect_uri: Option<String>,
    pub refresh_token: Option<String>,
}

/// The exchange of an authorization code, bound to the attempt's verifier and exact redirect URI.
pub fn authorization_code_request(code: &str, code_verifier: &str, redirect_uri: &str) -> (r:
    TokenRequest)
    ensures
        r.grant_type@ == "authorization_code"@,
        r.client_id@ == client_id_value(),
        r.code matches Some(c) && c@ == code@,
        r.code_verifier matches Some(v) && v@ == code_verifier@,
        r.redirect_uri matches Some(u) && u@ == redirect_uri@,
        r.refresh_token is None,
{
    TokenRequest {
        grant_type: String::from_str("authorization_code"),
        client_id: client_id().to_owned(),
        code: Some(code.to_owned()),
        code_verifier: Some(code_verifier.to_owned()),
        redirect_uri: Some(redirect_uri.to_owned()),
        refresh_token: None,
    }
}

/// The exchange of a stored refresh token for fresh tokens.
pub fn refresh_token_request(refresh_token: &str) -> (r: TokenRequest)
    ensures
        r.grant_type@ == "refresh_token"@,
        r.client_id@ == client_id_value(),
        r.refresh_token matches Some(t) && t@ == refresh_token@,
        r.code is None && r.code_verifier is None && r.redirect_uri is None,
{
    TokenRequest {
        grant_type: String::from_str("refresh_token"),
        client_id: client_id().to_owned(),
        code: None,
        code_verifier: None,
        redirect_uri: None,
        refresh_token: Some(refresh_token.to_owned()),
    }
}

/// The refresh request for the stored refresh token; with nothing stored, a sign-in is needed.
pub fn refresh_request_for(stored: Option<&str>) -> (r: Result<TokenRequest, CliError>)
    ensures
        match stored {
            None => r == Err::<TokenRequest, CliError>(CliError::MissingCredential),
            Some(t) => r matches Ok(q) && q.grant_type@ == "refresh_token"@ && q.client_id@
                == client_id_value() && (q.refresh_token matches Some(rt) && rt@ == t@)
                && q.code is None && q.code_verifier is None && q.redirect_uri is None,
        },
{
    match stored {
        None => Err(CliError::MissingCredential),
        Some(t) => Ok(refresh_token_request(t)),
    }
}

/// The token endpoint's answer.
pub struct TokenResponse {
    pub access_token: String,
    pub refresh_token: String,
    pub token_type: String,
    pub expires_in: u64,
}

/// Whether a token answer can be used: bearer tokens, not expired at once, neither blank.
pub open spec fn valid_token_response(t: TokenResponse) -> bool {
    &&& t.token_type@ == "Bearer"@
    &&& t.expires_in != 0
    &&& trim_seq(t.access_token@).len() > 0
    &&& trim_seq(t.refresh_token@).len() > 0
}

/// The message that refuses a token answer.
pub open spec fn token_response_refusal() -> Seq<char> {
    "D6E Auth returned an invalid token response"@
}

/// Accepts a usable token answer.
pub fn validate_token_response(token: &TokenResponse) -> (r: Result<(), CliError>)
    ensures
        match r {
            Ok(()) => valid_token_response(*token),
            Err(e) => e matches CliError::Authentication { message } && message@
                == token_response_refusal() && !valid_token_response(*token),
        },
{
    if !str_eq(token.token_type.as_str(), "Bearer") || token.expires_in == 0 || trim(
        token.access_token.as_str(),
    ).as_str().is_empty() || trim(token.refresh_token.as_str()).as_str().is_empty() {
        return Err(CliError::Authentication { message: String::from_str("D6E Auth returned an invalid token response") });
    }
    Ok(())
}

/// What a refresh of the stored credential leads to.
pub enum RefreshOutcome {
    /// Replace the stored refresh token and use the access token.
    Store { refresh_token: String, access_token: String },
    /// Report the error; the stored credential is left as it is.
    Fail(CliError),
}

/// Whether an error is D6E Auth's `invalid_grant` refusal.
pub open spec fn is_invalid_grant(e: CliError) -> bool {
    e matches CliError::Api { status, code, .. } && status == 400 && code@ == "invalid_grant"@
}

/// The refusals that `refresh_outcome` turns into "sign in again": exactly the API errors
/// whose status is `400 Bad Request` and whose reported code is `invalid_grant`. An API error
/// with another status, or a `400` with any other code, is not one of them and is passed on
/// unchanged.
pub proof fn only_invalid_grant_asks_for_a_new_sign_in(e: CliError)
    ensures
        is_invalid_grant(e) <==> (e is Api && exit_code_of(e) == 2 && code_of(e)
            == "invalid_grant"@),
        (e matches CliError::Api { status, .. } && status == 400 && code_of(e) != "invalid_grant"@)
            ==> !is_invalid_grant(e),
{
}

/// What the answer to a refresh request leads to: a usable new token pair is stored, an
/// unusable one is refused as `validate_token_response` refuses it, an `invalid_grant`
/// refusal reports that a new sign-in is needed without touching the stored entry (another
/// process may have replaced it), and any other error is reported.
pub fn refresh_outcome(result: Result<TokenResponse, CliError>) -> (r: RefreshOutcome)
    ensures
        match result {
            Ok(t) => if valid_token_response(t) {
                r == RefreshOutcome::Store {
                    refresh_token: t.refresh_token,
                    access_token: t.access_token,
                }
            } else {
                r matches RefreshOutcome::Fail(e) && e matches CliError::Authentication {
                    message,
                } && message@ == token_response_refusal()
            },
            Err(e) => if is_invalid_grant(e) {
                r == RefreshOutcome::Fail(CliError::MissingCredential)
            } else {
                r == RefreshOutcome::Fail(e)
            },
        },
{
    match result {
        Ok(t) => match validate_token_response(&t) {
            Ok(()) => RefreshOutcome::Store {
                refresh_token: t.refresh_token,
                access_token: t.access_token,
            },
            Err(e) => RefreshOutcome::Fail(e),
        },
        Err(e) => {
            let invalid_grant = match &e {
                CliError::Api { status, code, .. } => *status == 400 && str_eq(
                    code.as_str(),
                    "invalid_grant",
                ),
                _ => false,
            };
            if invalid_grant {
                RefreshOutcome::Fail(CliError::MissingCredential)
            } else {
                RefreshOutcome::Fail(e)
            }
        },
    }
}

/// What `auth status` and `auth logout` print.
pub struct AuthStatus {
    pub logged_in: bool,
    pub user: Option<PersonalProfile>,
}

/// The status that reports that nobody is signed in.
pub fn signed_out() -> (r: AuthStatus)
    ensures
        !r.logged_in && r.user is None,
{
    AuthStatus { logged_in: false, user: None }
}

/// The status that reports `user` as signed in.
pub fn signed_in(user: PersonalProfile) -> (r: AuthStatus)
    ensures
        r.logged_in && r.user == Some(user),
{
    AuthStatus { logged_in: true, user: Some(user) }
}

/// How `auth status` starts: with no stored credential it reports signed out at once, without
/// a refresh; otherwise (`None`) it goes on to refresh.
pub fn status_before_refresh(has_credential: bool) -> (r: Option<AuthStatus>)
    ensures
        has_credential ==> r is None,
        !has_credential ==> (r matches Some(st) && !st.logged_in && st.user is None),
{
    if has_credential {
        None
    } else {
        Some(signed_out())
    }
}

/// Whether `auth status` goes on with an access token, reports that nobody is signed in, or
/// fails: a missing credential after the refresh means signed out, not an error.
pub fn session_after_refresh(result: Result<String, CliError>) -> (r: Result<
    Option<String>,
    CliError,
>)
    ensures
        match result {
            Ok(token) => r == Ok::<Option<String>, CliError>(Some(token)),
            Err(e) => if e is MissingCredential {
                r == Ok::<Option<String>, CliError>(None)
            } else {
                r == Err::<Option<String>, CliError>(e)
            },
        },
{
    match result {
        Ok(token) => Ok(Some(token)),
        Err(CliError::MissingCredential) => Ok(None),
        Err(e) => Err(e),
    }
}

} // verus!
