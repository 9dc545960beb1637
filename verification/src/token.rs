//! Per-service OAuth token bookkeeping: the ledger of access token, refresh
//! token and absolute expiry instant, kept in the credential vault, with the
//! freshness decision and the refresh-token carryover rule.
use vstd::prelude::*;

verus! {

use vstd::utf8::encode_utf8;
use crate::crypto::StorageError;
use crate::crypto::seal_limit;
use crate::errors::MilkError;
use crate::strutil::all_digits;
use crate::strutil::dec_digits;
use crate::strutil::parse_dec_val;
use crate::strutil::to_decimal;
use crate::strutil::parse_u64;
use crate::strutil::lemma_parse_of_dec;
use crate::strutil::lemma_dec_digits_len_u64;
use crate::strutil::lemma_digits_utf8_len;
use crate::vault::CredentialStore;
use vstd::string::StringExecFns;

/// Errors of the streaming-service layer.
#[derive(Debug)]
pub enum ApiError {
    NetworkError(String),
    AuthenticationError(String),
    ParseError(String),
    StorageError(String),
    TokenExpired,
    NoActivePlayback,
}

/// OAuth credentials for authentication.
#[derive(Debug, Clone)]
pub struct Credentials {
    pub client_id: String,
    pub client_secret: String,
    pub redirect_uri: String,
}

/// OAuth token response.
#[derive(Debug, Clone)]
pub struct Token {
    pub access_token: String,
    pub token_type: String,
    pub expires_in: u64,
    pub refresh_token: Option<String>,
    pub scope: Option<String>,
}

/// The streaming services this crate keeps tokens for.
#[derive(Debug, Clone, Copy, PartialEq, Eq, Structural)]
pub enum ServiceKind {
    Spotify,
    YouTube,
}

/// The vault name of a service's access token.
pub open spec fn access_key_spec(s: ServiceKind) -> Seq<char> {
    match s {
        ServiceKind::Spotify => "spotify_access_token"@,
        ServiceKind::YouTube => "youtube_access_token"@,
    }
}

/// The vault name of a service's refresh token.
pub open spec fn refresh_key_spec(s: ServiceKind) -> Seq<char> {
    match s {
        ServiceKind::Spotify => "spotify_refresh_token"@,
        ServiceKind::YouTube => "youtube_refresh_token"@,
    }
}

/// The vault name of a service's token expiry instant.
pub open spec fn expiry_key_spec(s: ServiceKind) -> Seq<char> {
    match s {
        ServiceKind::Spotify => "spotify_token_expiry"@,
        ServiceKind::YouTube => "youtube_token_expiry"@,
    }
}

/// The safety margin, in seconds, by which a token is treated as expired
/// before its stored expiry instant.
pub open spec fn expiry_skew() -> int {
    60
}

/// Whether a token with the given absolute expiry is treated as expired at
/// `now`: the skew margin before the instant has been reached.
pub open spec fn expired_at(now: int, expiry: int) -> bool {
    now + expiry_skew() >= expiry
}

/// Decides expiry without ever wrapping: equivalent to comparing `now`
/// against the stored instant minus the skew margin.
pub fn is_expired_at(now: u64, expiry: u64) -> (r: bool)
    ensures
        r == expired_at(now as int, expiry as int),
{
    expiry <= now || expiry - now <= 60
}

/// Expiry boundary: a token issued to expire at `t + e` is not yet treated
/// as expired one second before the skew margin (`t + e - 61`) and already
/// treated as expired one second after it (`t + e - 59`).
pub proof fn lemma_expiry_boundary(t: int, e: int)
    ensures
        !expired_at(t + e - 61, t + e),
        expired_at(t + e - 59, t + e),
{
}

/// Refresh-token carryover: a refreshed token that carries no new refresh
/// token is completed with the previously stored one; one that carries a
/// new refresh token keeps it.
pub fn carry_refresh(token: Token, prior: Option<String>) -> (r: Token)
    ensures
        r.access_token == token.access_token,
        r.token_type == token.token_type,
        r.expires_in == token.expires_in,
        r.scope == token.scope,
        token.refresh_token matches Some(t) ==> r.refresh_token matches Some(u) && u == t,
        token.refresh_token is None ==> r.refresh_token == prior,
{
    match token.refresh_token {
        Some(t) => Token { refresh_token: Some(t), ..token },
        None => Token { refresh_token: prior, ..token },
    }
}

/// What to do when a caller asks for a valid access token.
#[derive(Debug)]
pub enum TokenAction {
    UseStored(String),
    Refresh,
    AuthRequired,
}

/// The freshness decision of `get_valid_token`: a stored, unexpired access
/// token is used as is; otherwise a refresh is asked for when credentials
/// are at hand, and re-authentication when they are not.
pub fn valid_token_action(expired: bool, stored: Option<String>, has_credentials: bool) -> (r:
    TokenAction)
    ensures
        !expired ==> (stored matches Some(t) ==> (r matches TokenAction::UseStored(u) && u
            == t)),
        (expired || stored is None) ==> (if has_credentials {
            r is Refresh
        } else {
            r is AuthRequired
        }),
{
    if !expired {
        if let Some(t) = stored {
            return TokenAction::UseStored(t);
        }
    }
    if has_credentials {
        TokenAction::Refresh
    } else {
        TokenAction::AuthRequired
    }
}

/// The text of a vault-layer error, as the service layer reports it.
pub open spec fn storage_text_spec(e: &StorageError) -> Seq<char> {
    match e {
        StorageError::KeyringError(m) => "Keyring error: "@ + m@,
        StorageError::EncryptionError(m) => "Encryption error: "@ + m@,
        StorageError::DecryptionError(m) => "Decryption error: "@ + m@,
        StorageError::Base64Error(m) => "Base64 error: "@ + m@,
    }
}

/// Renders a vault-layer error as text.
pub fn storage_text(e: &StorageError) -> (r: String)
    ensures
        r@ == storage_text_spec(e),
{
    let (prefix, m): (&str, &String) = match e {
        StorageError::KeyringError(m) => ("Keyring error: ", m),
        StorageError::EncryptionError(m) => ("Encryption error: ", m),
        StorageError::DecryptionError(m) => ("Decryption error: ", m),
        StorageError::Base64Error(m) => ("Base64 error: ", m),
    };
    let mut s = String::from_str(prefix);
    s.append(m.as_str());
    s
}

/// The ledger view after a save: the access token is always overwritten,
/// the refresh token only when the saved token carries one, and the expiry
/// becomes the decimal text of `now + expires_in`.
pub open spec fn saved_view(
    m: Map<Seq<char>, Seq<char>>,
    service: ServiceKind,
    token: &Token,
    now: int,
) -> Map<Seq<char>, Seq<char>> {
    let m1 = m.insert(access_key_spec(service), token.access_token@);
    let m2 = match token.refresh_token {
        Some(rt) => m1.insert(refresh_key_spec(service), rt@),
        None => m1,
    };
    m2.insert(expiry_key_spec(service), dec_digits(now + token.expires_in))
}

/// Per-service bookkeeping of access token, refresh token and expiry
/// instant, stored encrypted in the credential vault.
pub struct TokenLedger {
    pub service: ServiceKind,
}

impl TokenLedger {
    /// A ledger for one service.
    pub fn new(service: ServiceKind) -> (r: TokenLedger)
        ensures
            r.service == service,
    {
        TokenLedger { service }
    }

    fn access_key(&self) -> (r: &'static str)
        ensures
            r@ == access_key_spec(self.service),
    {
        match self.service {
            ServiceKind::Spotify => "spotify_access_token",
            ServiceKind::YouTube => "youtube_access_token",
        }
    }

    fn refresh_key(&self) -> (r: &'static str)
        ensures
            r@ == refresh_key_spec(self.service),
    {
        match self.service {
            ServiceKind::Spotify => "spotify_refresh_token",
            ServiceKind::YouTube => "youtube_refresh_token",
        }
    }

    fn expiry_key(&self) -> (r: &'static str)
        ensures
            r@ == expiry_key_spec(self.service),
    {
        match self.service {
            ServiceKind::Spotify => "spotify_token_expiry",
            ServiceKind::YouTube => "youtube_token_expiry",
        }
    }

    /// Saves a token: overwrites the access token, overwrites the refresh
    /// token only if the saved token carries one, and stores the absolute
    /// expiry `now + expires_in` as decimal text.
    pub fn save(&self, store: &mut CredentialStore, token: &Token, now: u64) -> (r: Result<
        (),
        ApiError,
    >)
        requires
            old(store).wf(),
            now + token.expires_in <= u64::MAX,
            encode_utf8(token.access_token@).len() <= seal_limit(),
            token.refresh_token matches Some(rt) ==> encode_utf8(rt@).len() <= seal_limit(),
        ensures
            final(store).wf(),
            r is Ok ==> final(store)@ == saved_view(old(store)@, self.service, token, now as int),
            r matches Err(e) ==> e matches ApiError::StorageError(_),
            r is Err ==> (final(store)@ == old(store)@ || final(store)@ == old(store)@.insert(
                access_key_spec(self.service),
                token.access_token@,
            ) || (token.refresh_token matches Some(rt) && final(store)@ == old(store)@.insert(
                access_key_spec(self.service),
                token.access_token@,
            ).insert(refresh_key_spec(self.service), rt@))),
    {
        match store.store(self.access_key(), token.access_token.as_str()) {
            Ok(()) => {},
            Err(e) => {
                return Err(ApiError::StorageError(storage_text(&e)));
            },
        }
        match &token.refresh_token {
            Some(rt) => {
                match store.store(self.refresh_key(), rt.as_str()) {
                    Ok(()) => {},
                    Err(e) => {
                        return Err(ApiError::StorageError(storage_text(&e)));
                    },
                }
            },
            None => {},
        }
        let expiry: u64 = now + token.expires_in;
        let expiry_text = to_decimal(expiry);
        proof {
            lemma_parse_of_dec(expiry as int);
            lemma_dec_digits_len_u64(expiry as int);
            lemma_digits_utf8_len(dec_digits(expiry as int));
        }
        match store.store(self.expiry_key(), expiry_text.as_str()) {
            Ok(()) => {},
            Err(e) => {
                return Err(ApiError::StorageError(storage_text(&e)));
            },
        }
        Ok(())
    }

    /// The stored access token, if any.
    pub fn get_access_token(&self, store: &CredentialStore) -> (r: Result<Option<String>, ApiError>)
        requires
            store.wf(),
        ensures
            r is Ok,
            r matches Ok(o) ==> (o is Some <==> store@.contains_key(access_key_spec(self.service))),
            r matches Ok(o) ==> (o matches Some(v) ==> v@ == store@[access_key_spec(self.service)]),
    {
        match store.retrieve(self.access_key()) {
            Ok(o) => Ok(o),
            Err(e) => Err(ApiError::StorageError(storage_text(&e))),
        }
    }

    /// The stored refresh token, if any.
    pub fn get_refresh_token(&self, store: &CredentialStore) -> (r: Result<
        Option<String>,
        ApiError,
    >)
        requires
            store.wf(),
        ensures
            r is Ok,
            r matches Ok(o) ==> (o is Some <==> store@.contains_key(
                refresh_key_spec(self.service),
            )),
            r matches Ok(o) ==> (o matches Some(v) ==> v@ == store@[refresh_key_spec(
                self.service,
            )]),
    {
        match store.retrieve(self.refresh_key()) {
            Ok(o) => Ok(o),
            Err(e) => Err(ApiError::StorageError(storage_text(&e))),
        }
    }

    /// Whether the stored token is expired at `now`: true when no expiry is
    /// stored; else the skew-adjusted comparison against the stored decimal
    /// instant. A stored instant that is not a decimal numeral in range is
    /// a parse failure.
    pub fn is_expired(&self, store: &CredentialStore, now: u64) -> (r: Result<bool, ApiError>)
        requires
            store.wf(),
        ensures
            !store@.contains_key(expiry_key_spec(self.service)) ==> (r matches Ok(b) && b
                == true),
            store@.contains_key(expiry_key_spec(self.service)) ==> {
                let t = store@[expiry_key_spec(self.service)];
                if t.len() > 0 && all_digits(t) && parse_dec_val(t) <= u64::MAX {
                    r matches Ok(b) && b == expired_at(now as int, parse_dec_val(t))
                } else {
                    r matches Err(e) && e matches ApiError::ParseError(_)
                }
            },
    {
        let stored = match store.retrieve(self.expiry_key()) {
            Ok(o) => o,
            Err(e) => {
                proof {
                    assert(false);
                }
                return Err(ApiError::StorageError(storage_text(&e)));
            },
        };
        match stored {
            None => Ok(true),
            Some(text) => {
                match parse_u64(text.as_str()) {
                    Some(expiry) => Ok(is_expired_at(now, expiry)),
                    None => Err(
                        ApiError::ParseError(
                            String::from_str("invalid stored expiry instant"),
                        ),
                    ),
                }
            },
        }
    }
}

/// Maps a service-layer error into the umbrella taxonomy, one destination
/// per source kind.
pub fn milk_error_of_api(service: ServiceKind, e: ApiError) -> (r: MilkError)
    ensures
        e matches ApiError::NetworkError(m) ==> r matches MilkError::NetworkError(n) && n == m,
        e matches ApiError::AuthenticationError(_) ==> r matches MilkError::AuthenticationFailed(_),
        e matches ApiError::ParseError(m) ==> r matches MilkError::InvalidResponse(n) && n == m,
        e matches ApiError::StorageError(m) ==> r matches MilkError::SecureStorageError(n) && n
            == m,
        e matches ApiError::TokenExpired ==> r matches MilkError::AuthenticationFailed(_),
        e matches ApiError::NoActivePlayback ==> r matches MilkError::Other(_),
{
    match e {
        ApiError::NetworkError(m) => MilkError::NetworkError(m),
        ApiError::AuthenticationError(m) => {
            let prefix = match service {
                ServiceKind::Spotify => "Spotify: ",
                ServiceKind::YouTube => "YouTube: ",
            };
            let mut s = String::from_str(prefix);
            s.append(m.as_str());
            MilkError::AuthenticationFailed(s)
        },
        ApiError::ParseError(m) => MilkError::InvalidResponse(m),
        ApiError::StorageError(m) => MilkError::SecureStorageError(m),
        ApiError::TokenExpired => {
            let text = match service {
                ServiceKind::Spotify => "Spotify token expired",
                ServiceKind::YouTube => "YouTube token expired",
            };
            MilkError::AuthenticationFailed(String::from_str(text))
        },
        ApiError::NoActivePlayback => MilkError::Other(
            String::from_str("No active playback"),
        ),
    }
}

/// After a save, the stored expiry entry is the decimal text of the saved
/// absolute instant and always parses back to it, so the freshness check
/// compares `now` against exactly `issuance + expires_in`.
pub proof fn lemma_saved_expiry_reads_back(
    m: Map<Seq<char>, Seq<char>>,
    service: ServiceKind,
    token: &Token,
    now: int,
)
    requires
        0 <= now,
        now + token.expires_in <= u64::MAX,
    ensures
        saved_view(m, service, token, now).contains_key(expiry_key_spec(service)),
        ({
            let text = saved_view(m, service, token, now)[expiry_key_spec(service)];
            text.len() > 0 && all_digits(text) && parse_dec_val(text) == now + token.expires_in
        }),
{
    lemma_parse_of_dec(now + token.expires_in);
}

} // verus!
