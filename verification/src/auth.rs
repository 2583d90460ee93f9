use vstd::prelude::*;
use vstd::utf8::encode_utf8;
use base64::Engine;
use sha2::Digest;

use crate::config::Config;
use crate::text::{decimal, push_decimal};
use crate::url::{encode_byte, url_encode_bytes, url_encoded, urlencoding_encode};
use vstd::utf8::is_ascii_chars;

verus! {

/// The scopes that the client asks the user to grant.
pub open spec fn scopes() -> Seq<char> {
    "user-read-playback-state user-modify-playback-state user-read-currently-playing playlist-read-private playlist-read-collaborative user-library-read user-library-modify user-read-recently-played"@
}

/// The scopes, space-separated.
pub fn scopes_text() -> (r: String)
    ensures
        r@ == scopes(),
{
    String::from_str(
        "user-read-playback-state user-modify-playback-state user-read-currently-playing playlist-read-private playlist-read-collaborative user-library-read user-library-modify user-read-recently-played",
    )
}

/// Tokens of an authorized session; `expires_at` is in seconds since the
/// Unix epoch.
#[derive(Debug, Clone, PartialEq)]
pub struct TokenData {
    pub access_token: String,
    pub refresh_token: String,
    pub expires_at: u64,
}

/// The token endpoint's answer; `expires_in` is in seconds.
#[derive(Debug, Clone, PartialEq)]
pub struct TokenResponse {
    pub access_token: String,
    pub refresh_token: Option<String>,
    pub expires_in: u64,
}

/// A token counts as expired from one minute before its expiry time on.
pub open spec fn expired_at(expires_at: u64, now: u64) -> bool {
    now >= (if expires_at >= 60 {
        expires_at - 60
    } else {
        0
    })
}

/// Calls `std::time::SystemTime::now` and gives the whole seconds since the
/// Unix epoch, or `None` when the clock stands before the epoch. The time is
/// the machine's, so nothing is claimed of it.
#[verifier::external_body]
fn unix_time_secs() -> (r: Option<u64>) {
    match std::time::SystemTime::now().duration_since(std::time::UNIX_EPOCH) {
        Ok(d) => Some(d.as_secs()),
        Err(_) => None,
    }
}

impl TokenData {
    /// Whether the token counts as expired at time `now`.
    pub fn is_expired_at(&self, now: u64) -> (r: bool)
        ensures
            r == expired_at(self.expires_at, now),
    {
        now >= self.expires_at.saturating_sub(60)
    }

    /// Whether the token counts as expired now, by the machine's clock (a
    /// clock before the epoch reads as time 0).
    pub fn is_expired(&self) -> (r: bool)
        ensures
            exists|now: u64| r == expired_at(self.expires_at, now),
    {
        let now = match unix_time_secs() {
            Some(t) => t,
            None => 0,
        };
        self.is_expired_at(now)
    }
}

/// The expiry time of a token that lives `expires_in` seconds from the
/// clock reading `now`: `None` when there is no reading (the clock stands
/// before the epoch) or when the sum does not fit.
pub open spec fn expiry_spec(now: Option<u64>, expires_in: u64) -> Option<u64> {
    match now {
        Some(n) => if n + expires_in <= u64::MAX {
            Some((n + expires_in) as u64)
        } else {
            None
        },
        None => None,
    }
}

/// The expiry time for a given clock reading (see `expiry_spec`).
pub fn expiry_after(now: Option<u64>, expires_in: u64) -> (r: Option<u64>)
    ensures
        r == expiry_spec(now, expires_in),
{
    match now {
        Some(n) => n.checked_add(expires_in),
        None => None,
    }
}

/// The expiry time of a token that lives `expires_in` seconds from now, by
/// the machine's clock (so at least `expires_in`); `None` when the clock stands before the epoch or
/// the sum does not fit.
pub fn expiry_time(expires_in: u64) -> (r: Option<u64>)
    ensures
        exists|now: Option<u64>| r == expiry_spec(now, expires_in),
        r matches Some(t) ==> expires_in <= t,
{
    expiry_after(unix_time_secs(), expires_in)
}

/// The token of a first authorization: a missing refresh token is empty.
pub fn token_from_exchange(resp: TokenResponse, expires_at: u64) -> (t: TokenData)
    ensures
        t.access_token == resp.access_token,
        t.refresh_token@ == (match resp.refresh_token {
            Some(r) => r@,
            None => Seq::<char>::empty(),
        }),
        t.expires_at == expires_at,
{
    TokenData {
        access_token: resp.access_token,
        refresh_token: match resp.refresh_token {
            Some(r) => r,
            None => String::new(),
        },
        expires_at,
    }
}

/// The token after a refresh: a missing refresh token keeps the old one.
pub fn token_from_refresh(resp: TokenResponse, previous: &TokenData, expires_at: u64) -> (t: TokenData)
    ensures
        t.access_token == resp.access_token,
        t.refresh_token@ == (match resp.refresh_token {
            Some(r) => r@,
            None => previous.refresh_token@,
        }),
        t.expires_at == expires_at,
{
    TokenData {
        access_token: resp.access_token,
        refresh_token: match resp.refresh_token {
            Some(r) => r,
            None => previous.refresh_token.clone(),
        },
        expires_at,
    }
}

/// The address that the authorization server sends the user back to.
pub open spec fn redirect_uri_spec(port: u16) -> Seq<char> {
    "http://localhost:"@ + decimal(port as nat) + "/callback"@
}

/// `http://localhost:<port>/callback`.
pub fn redirect_uri(port: u16) -> (r: String)
    ensures
        r@ == redirect_uri_spec(port),
{
    let mut u = String::from_str("http://localhost:");
    push_decimal(&mut u, port as u64);
    u.append("/callback");
    u
}

/// The fields of a form, as texts.
pub open spec fn form_view(f: Seq<(String, String)>) -> Seq<(Seq<char>, Seq<char>)> {
    f.map_values(|p: (String, String)| (p.0@, p.1@))
}

/// The form that trades an authorization code for tokens (PKCE, no secret).
pub open spec fn exchange_form_spec(code: Seq<char>, verifier: Seq<char>, client_id: Seq<char>, port: u16) -> Seq<(Seq<char>, Seq<char>)> {
    seq![
        ("grant_type"@, "authorization_code"@),
        ("code"@, code),
        ("redirect_uri"@, redirect_uri_spec(port)),
        ("client_id"@, client_id),
        ("code_verifier"@, verifier),
    ]
}

/// The form that refreshes a token.
pub open spec fn refresh_form_spec(refresh_token: Seq<char>, client_id: Seq<char>, client_secret: Seq<char>) -> Seq<(Seq<char>, Seq<char>)> {
    seq![
        ("grant_type"@, "refresh_token"@),
        ("refresh_token"@, refresh_token),
        ("client_id"@, client_id),
        ("client_secret"@, client_secret),
    ]
}

fn field(name: &str, value: &str) -> (r: (String, String))
    ensures
        r.0@ == name@,
        r.1@ == value@,
{
    (String::from_str(name), String::from_str(value))
}

/// Builds the form that trades `code` for tokens.
pub fn exchange_form(code: &str, verifier: &str, config: &Config) -> (r: Vec<(String, String)>)
    ensures
        form_view(r@) == exchange_form_spec(code@, verifier@, config.client_id@, config.redirect_port),
{
    let redirect = redirect_uri(config.redirect_port);
    let mut r: Vec<(String, String)> = Vec::new();
    r.push(field("grant_type", "authorization_code"));
    r.push(field("code", code));
    r.push(field("redirect_uri", redirect.as_str()));
    r.push(field("client_id", config.client_id.as_str()));
    r.push(field("code_verifier", verifier));
    assert(form_view(r@) =~= exchange_form_spec(code@, verifier@, config.client_id@, config.redirect_port));
    r
}

/// Builds the form that refreshes `token`.
pub fn refresh_form(token: &TokenData, config: &Config) -> (r: Vec<(String, String)>)
    ensures
        form_view(r@) == refresh_form_spec(token.refresh_token@, config.client_id@, config.client_secret@),
{
    let mut r: Vec<(String, String)> = Vec::new();
    r.push(field("grant_type", "refresh_token"));
    r.push(field("refresh_token", token.refresh_token.as_str()));
    r.push(field("client_id", config.client_id.as_str()));
    r.push(field("client_secret", config.client_secret.as_str()));
    assert(form_view(r@) =~= refresh_form_spec(token.refresh_token@, config.client_id@, config.client_secret@));
    r
}

/// The token endpoint of the accounts service.
pub fn token_endpoint() -> (r: String)
    ensures
        r@ == "https://accounts.spotify.com/api/token"@,
{
    String::from_str("https://accounts.spotify.com/api/token")
}

/// The message of a refused token request: `Token exchange failed: <body>`
/// for a first authorization, `Token refresh failed: <body>` for a refresh.
pub fn token_error_message(refreshing: bool, body: &str) -> (r: String)
    ensures
        r@ == (if refreshing {
            "Token refresh failed: "@
        } else {
            "Token exchange failed: "@
        }) + body@,
{
    let mut m = if refreshing {
        String::from_str("Token refresh failed: ")
    } else {
        String::from_str("Token exchange failed: ")
    };
    m.append(body);
    m
}

/// The authorization page's address with the client's parameters.
pub open spec fn authorize_url_spec(client_id: Seq<char>, port: u16, state: Seq<char>, challenge: Seq<char>) -> Seq<char> {
    "https://accounts.spotify.com/authorize?client_id="@ + client_id
        + "&response_type=code&redirect_uri="@ + url_encoded(redirect_uri_spec(port))
        + "&scope="@ + url_encoded(scopes()) + "&state="@ + state
        + "&code_challenge_method=S256&code_challenge="@ + challenge
}

/// Builds the address of the authorization page.
pub fn authorize_url(config: &Config, state: &str, challenge: &str) -> (r: String)
    ensures
        r@ == authorize_url_spec(config.client_id@, config.redirect_port, state@, challenge@),
{
    let redirect = redirect_uri(config.redirect_port);
    let scopes = scopes_text();
    let mut u = String::from_str("https://accounts.spotify.com/authorize?client_id=");
    u.append(config.client_id.as_str());
    u.append("&response_type=code&redirect_uri=");
    u.append(urlencoding_encode(redirect.as_str()).as_str());
    u.append("&scope=");
    u.append(urlencoding_encode(scopes.as_str()).as_str());
    u.append("&state=");
    u.append(state);
    u.append("&code_challenge_method=S256&code_challenge=");
    u.append(challenge);
    u
}

/// The URL-safe base64 digit of a six-bit value: `A`-`Z`, `a`-`z`,
/// `0`-`9`, `-`, `_`.
pub open spec fn b64_char(v: nat) -> char {
    if v < 26 {
        (65 + v) as char
    } else if v < 52 {
        (97 + v - 26) as char
    } else if v < 62 {
        (48 + v - 52) as char
    } else if v == 62 {
        '-'
    } else {
        '_'
    }
}

/// The URL-safe base64 text of some bytes, without padding (RFC 4648,
/// section 5): each group of three bytes gives four digits of six bits;
/// a last group of two bytes gives three digits, of one byte two digits,
/// the missing low bits being zero.
pub open spec fn base64_url_no_pad(bytes: Seq<u8>) -> Seq<char>
    decreases bytes.len(),
{
    if bytes.len() == 0 {
        seq![]
    } else if bytes.len() == 1 {
        seq![b64_char((bytes[0] / 4) as nat), b64_char(((bytes[0] % 4) * 16) as nat)]
    } else if bytes.len() == 2 {
        seq![
            b64_char((bytes[0] / 4) as nat),
            b64_char(((bytes[0] % 4) * 16 + bytes[1] / 16) as nat),
            b64_char(((bytes[1] % 16) * 4) as nat),
        ]
    } else {
        seq![
            b64_char((bytes[0] / 4) as nat),
            b64_char(((bytes[0] % 4) * 16 + bytes[1] / 16) as nat),
            b64_char(((bytes[1] % 16) * 4 + bytes[2] / 64) as nat),
            b64_char((bytes[2] % 64) as nat),
        ] + base64_url_no_pad(bytes.skip(3))
    }
}

/// A character of the URL-safe base64 alphabet.
pub open spec fn is_b64_char(c: char) -> bool {
    ||| ('A' <= c <= 'Z')
    ||| ('a' <= c <= 'z')
    ||| ('0' <= c <= '9')
    ||| c == '-'
    ||| c == '_'
}

/// The length of the unpadded base64 text of `n` bytes.
pub open spec fn base64_len(n: nat) -> nat {
    (4 * n + 2) / 3
}

/// Unpadded URL-safe base64 of `n` bytes has `(4n + 2) / 3` characters,
/// all from the URL-safe alphabet (so none is `=`, `&`, `?` or white space).
pub proof fn law_base64_shape(bytes: Seq<u8>)
    ensures
        base64_url_no_pad(bytes).len() == base64_len(bytes.len()),
        forall|i: int| 0 <= i < base64_url_no_pad(bytes).len() ==> is_b64_char(
            #[trigger] base64_url_no_pad(bytes)[i],
        ),
    decreases bytes.len(),
{
    let e = base64_url_no_pad(bytes);
    if bytes.len() >= 3 {
        law_base64_shape(bytes.skip(3));
        let t = base64_url_no_pad(bytes.skip(3));
        assert(bytes[0] / 4 < 64);
        assert((bytes[0] % 4) * 16 + bytes[1] / 16 < 64);
        assert((bytes[1] % 16) * 4 + bytes[2] / 64 < 64);
        assert forall|i: int| 0 <= i < e.len() implies is_b64_char(#[trigger] e[i]) by {
            if i >= 4 {
                assert(e[i] == t[i - 4]);
            }
        }
    } else if bytes.len() == 2 {
        assert((bytes[0] % 4) * 16 + bytes[1] / 16 < 64);
    }
}

/// The SHA-256 digest of some bytes, as the sha2 crate computes it.
pub uninterp spec fn sha256(bytes: Seq<u8>) -> Seq<u8>;

/// A text in the URL-safe base64 alphabet is left as it is by
/// percent-encoding, so it may stand in a query unencoded.
pub proof fn law_b64_text_needs_no_encoding(t: Seq<char>)
    requires
        forall|i: int| 0 <= i < t.len() ==> is_b64_char(#[trigger] t[i]),
    ensures
        url_encoded(t) == t,
    decreases t.len(),
{
    if t.len() == 0 {
        assert(encode_utf8(t) =~= Seq::<u8>::empty());
    } else {
        let rest = t.drop_first();
        assert forall|i: int| 0 <= i < rest.len() implies is_b64_char(#[trigger] rest[i]) by {
            assert(rest[i] == t[i + 1]);
        }
        law_b64_text_needs_no_encoding(rest);
        assert(is_ascii_chars(t)) by {
            assert forall|i: int| 0 <= i < t.len() implies '\0' <= #[trigger] t[i] <= '\u{7f}' by {
                assert(is_b64_char(t[i]));
            }
        }
        vstd::utf8::is_ascii_chars_encode_utf8(t);
        let bs = encode_utf8(t);
        assert(is_b64_char(t[0]));
        assert(bs[0] == t[0] as u8);
        assert(bs.drop_first() =~= encode_utf8(rest));
        assert(url_encode_bytes(bs) == encode_byte(bs[0]) + url_encode_bytes(bs.drop_first()));
        assert(encode_byte(bs[0]) =~= seq![t[0]]);
        assert(seq![t[0]] + rest =~= t);
    }
}

/// Calls `Engine::encode` of base64's `URL_SAFE_NO_PAD`: the URL-safe
/// alphabet, no padding, so the text is `base64_url_no_pad` of the bytes.
/// The length bound keeps the encoder's
/// size computation from overflowing, where it would panic.
#[verifier::external_body]
fn encode_base64_url(bytes: &[u8]) -> (r: String)
    requires
        bytes@.len() <= 0x1000_0000,
    ensures
        r@ == base64_url_no_pad(bytes@),
{
    base64::engine::general_purpose::URL_SAFE_NO_PAD.encode(bytes)
}

/// Calls `Digest::digest` of sha2's `Sha256`; the digest is named `sha256`
/// of the bytes, and is 32 bytes long.
#[verifier::external_body]
fn sha256_digest(bytes: &[u8]) -> (r: Vec<u8>)
    ensures
        r@ == sha256(bytes@),
        r@.len() == 32,
{
    sha2::Sha256::digest(bytes).to_vec()
}

/// Calls `rand::random::<u8>`: a byte from the thread's generator, seeded by
/// the operating system. It is chance, so nothing is claimed of it (rand
/// panics where the system's generator cannot be seeded).
#[verifier::external_body]
fn random_byte() -> (r: u8) {
    rand::random::<u8>()
}

/// `n` random bytes.
fn random_bytes(n: usize) -> (r: Vec<u8>)
    ensures
        r@.len() == n,
{
    let mut r: Vec<u8> = Vec::new();
    let mut i: usize = 0;
    while i < n
        invariant
            i <= n,
            r@.len() == i,
        decreases n - i,
    {
        r.push(random_byte());
        i += 1;
    }
    r
}

/// A fresh PKCE code verifier: 64 random bytes in URL-safe base64.
pub fn generate_code_verifier() -> (r: String)
    ensures
        exists|b: Seq<u8>| b.len() == 64 && r@ == base64_url_no_pad(b),
        r@.len() == 86,
        forall|i: int| 0 <= i < r@.len() ==> is_b64_char(#[trigger] r@[i]),
{
    let bytes = random_bytes(64);
    proof {
        law_base64_shape(bytes@);
    }
    encode_base64_url(bytes.as_slice())
}

/// The PKCE code challenge of a verifier: the URL-safe base64 of the
/// SHA-256 of its UTF-8 bytes.
pub fn generate_code_challenge(verifier: &str) -> (r: String)
    ensures
        r@ == base64_url_no_pad(sha256(encode_utf8(verifier@))),
        r@.len() == 43,
        forall|i: int| 0 <= i < r@.len() ==> is_b64_char(#[trigger] r@[i]),
{
    let digest = sha256_digest(verifier.as_bytes());
    proof {
        law_base64_shape(digest@);
    }
    encode_base64_url(digest.as_slice())
}

/// A fresh anti-forgery state: 16 random bytes in URL-safe base64.
pub fn generate_state() -> (r: String)
    ensures
        exists|b: Seq<u8>| b.len() == 16 && r@ == base64_url_no_pad(b),
        r@.len() == 22,
        forall|i: int| 0 <= i < r@.len() ==> is_b64_char(#[trigger] r@[i]),
{
    let bytes = random_bytes(16);
    proof {
        law_base64_shape(bytes@);
    }
    encode_base64_url(bytes.as_slice())
}

/// What to do about the token found on disk.
#[derive(Debug, Clone, PartialEq)]
pub enum AuthPlan {
    /// The token is still valid: use it.
    UseStored(TokenData),
    /// The token has expired: refresh it (and authorize afresh if that fails).
    Refresh(TokenData),
    /// No usable token: run the authorization flow.
    Authorize,
}

/// The plan for a stored token at time `now`.
pub open spec fn plan_at(stored: Option<TokenData>, now: u64) -> AuthPlan {
    match stored {
        Some(t) => if expired_at(t.expires_at, now) {
            AuthPlan::Refresh(t)
        } else {
            AuthPlan::UseStored(t)
        },
        None => AuthPlan::Authorize,
    }
}

/// Decides what to do about the token read from disk at time `now`.
pub fn plan_at_time(stored: Option<TokenData>, now: u64) -> (r: AuthPlan)
    ensures
        r == plan_at(stored, now),
{
    match stored {
        Some(t) => {
            if t.is_expired_at(now) {
                AuthPlan::Refresh(t)
            } else {
                AuthPlan::UseStored(t)
            }
        },
        None => AuthPlan::Authorize,
    }
}

/// Decides what to do about the token read from disk (`None` when there is
/// no file or it does not parse), by the machine's clock (a clock before
/// the epoch reads as time 0).
pub fn plan_for(stored: Option<TokenData>) -> (r: AuthPlan)
    ensures
        exists|now: u64| r == plan_at(stored, now),
{
    let now = match unix_time_secs() {
        Some(t) => t,
        None => 0,
    };
    plan_at_time(stored, now)
}

} // verus!
