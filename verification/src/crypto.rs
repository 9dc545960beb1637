//! Authenticated encryption of string secrets: AES-256-GCM sealing under a
//! 256-bit key and a fresh 12-byte nonce, and the transport-safe JSON text
//! envelope (two base64 fields) that wraps each encrypted record.
use vstd::prelude::*;

verus! {

use vstd::string::StringExecFns;
use vstd::string::StrSliceExecFns;
use vstd::string::StringSliceAdditionalSpecFns;
use vstd::utf8::encode_utf8;
use vstd::utf8::decode_utf8;
use vstd::utf8::valid_utf8;
use vstd::utf8::encode_utf8_valid_utf8;
use vstd::utf8::encode_utf8_decode_utf8;

/// Errors of the encryption-at-rest layer.
#[derive(Debug)]
pub enum StorageError {
    KeyringError(String),
    EncryptionError(String),
    DecryptionError(String),
    Base64Error(String),
}

/// What AES-256-GCM sealing returns for a key, nonce and plaintext: the
/// ciphertext with the 16-byte authentication tag appended.
pub uninterp spec fn aead_seal(key: Seq<u8>, nonce: Seq<u8>, plaintext: Seq<u8>) -> Seq<u8>;

/// What base64 standard encoding returns for a byte sequence.
pub uninterp spec fn b64_of(bytes: Seq<u8>) -> Seq<char>;

/// Whether a character belongs to the standard base64 alphabet (with the
/// padding character).
pub open spec fn is_b64_char(c: char) -> bool {
    ||| ('A' <= c && c <= 'Z')
    ||| ('a' <= c && c <= 'z')
    ||| ('0' <= c && c <= '9')
    ||| c == '+'
    ||| c == '/'
    ||| c == '='
}

/// Whether every character of a sequence is in the base64 alphabet.
pub open spec fn is_b64_seq(s: Seq<char>) -> bool {
    forall|i: int| 0 <= i < s.len() ==> is_b64_char(#[trigger] s[i])
}

/// Whether no character of a sequence is a double quote.
pub open spec fn quote_free(s: Seq<char>) -> bool {
    forall|i: int| 0 <= i < s.len() ==> #[trigger] s[i] != '"'
}

/// A base64 sequence holds no double quote.
pub proof fn lemma_b64_seq_quote_free(s: Seq<char>)
    requires
        is_b64_seq(s),
    ensures
        quote_free(s),
{
    assert forall|i: int| 0 <= i < s.len() implies #[trigger] s[i] != '"' by {
        assert(is_b64_char(s[i]));
    }
}

/// The plaintext length above which AES-GCM refuses to seal.
pub open spec fn seal_limit() -> int {
    0x10_0000_0000
}

/// Relies on rand's `OsRng` (`try_fill_bytes`): fills a buffer of the asked
/// length with operating-system randomness. Nothing is assumed about the
/// values; `None` reports an entropy-source failure.
#[verifier::external_body]
pub(crate) fn random_bytes(n: usize) -> (r: Option<Vec<u8>>)
    ensures
        r matches Some(v) ==> v@.len() == n,
{
    let mut buf = vec![0u8; n];
    match rand::RngCore::try_fill_bytes(&mut rand::rngs::OsRng, &mut buf) {
        Ok(()) => Some(buf),
        Err(_) => None,
    }
}

/// Relies on aes_gcm's `Aes256Gcm` (`Aead::encrypt`): sealing is a pure
/// function of key, nonce and plaintext, appends the 16-byte tag, and fails
/// only above the documented plaintext length limit.
#[verifier::external_body]
fn aes_gcm_seal(key: &[u8], nonce: &[u8], plaintext: &[u8]) -> (r: Option<Vec<u8>>)
    requires
        key@.len() == 32,
        nonce@.len() == 12,
    ensures
        r matches Some(c) ==> c@ == aead_seal(key@, nonce@, plaintext@) && c@.len() == plaintext@.len() + 16,
        plaintext@.len() <= seal_limit() ==> r is Some,
{
    let k = aes_gcm::Key::<aes_gcm::Aes256Gcm>::from_slice(key);
    let cipher = <aes_gcm::Aes256Gcm as aes_gcm::KeyInit>::new(k);
    let n = aes_gcm::Nonce::from_slice(nonce);
    match aes_gcm::aead::Aead::encrypt(&cipher, n, plaintext) {
        Ok(c) => Some(c),
        Err(_) => None,
    }
}

/// Relies on aes_gcm's `Aes256Gcm` (`Aead::decrypt`): opening succeeds on
/// exactly the sealed bytes for the same key and nonce, and then returns the
/// plaintext that was sealed.
#[verifier::external_body]
fn aes_gcm_open(key: &[u8], nonce: &[u8], ciphertext: &[u8]) -> (r: Option<Vec<u8>>)
    requires
        key@.len() == 32,
        nonce@.len() == 12,
    ensures
        r is None ==> forall|p: Seq<u8>| ciphertext@ != aead_seal(key@, nonce@, p),
        r matches Some(v) ==> ciphertext@ == aead_seal(key@, nonce@, v@),
        r matches Some(v) ==> forall|p: Seq<u8>| ciphertext@ == aead_seal(key@, nonce@, p) ==> v@
            == p,
{
    let k = aes_gcm::Key::<aes_gcm::Aes256Gcm>::from_slice(key);
    let cipher = <aes_gcm::Aes256Gcm as aes_gcm::KeyInit>::new(k);
    let n = aes_gcm::Nonce::from_slice(nonce);
    match aes_gcm::aead::Aead::decrypt(&cipher, n, ciphertext) {
        Ok(p) => Some(p),
        Err(_) => None,
    }
}

/// Relies on base64's `STANDARD` engine (`Engine::encode`): encoding is a
/// pure function of the bytes, uses the standard alphabet with padding, and
/// emits four characters per three input bytes.
#[verifier::external_body]
pub(crate) fn b64_encode(bytes: &[u8]) -> (r: String)
    ensures
        r@ == b64_of(bytes@),
        is_b64_seq(r@),
        r@.len() == 4 * ((bytes@.len() + 2) / 3),
{
    base64::Engine::encode(&base64::engine::general_purpose::STANDARD, bytes)
}

/// Relies on base64's `STANDARD` engine (`Engine::decode`): decoding accepts
/// exactly the canonical encodings and inverts encoding on them.
#[verifier::external_body]
pub(crate) fn b64_decode(s: &str) -> (r: Option<Vec<u8>>)
    ensures
        r is None ==> forall|b: Seq<u8>| s@ != b64_of(b),
        r matches Some(v) ==> s@ == b64_of(v@),
        r matches Some(v) ==> forall|b: Seq<u8>| s@ == b64_of(b) ==> v@ == b,
{
    match base64::Engine::decode(&base64::engine::general_purpose::STANDARD, s) {
        Ok(v) => Some(v),
        Err(_) => None,
    }
}

/// Relies on std's `String::from_utf8`: succeeds exactly on valid UTF-8 and
/// decodes those bytes to the characters they encode.
#[verifier::external_body]
fn utf8_to_string(bytes: Vec<u8>) -> (r: Option<String>)
    ensures
        r matches Some(s) ==> valid_utf8(bytes@) && s@ == decode_utf8(bytes@),
        valid_utf8(bytes@) ==> r is Some,
{
    match String::from_utf8(bytes) {
        Ok(s) => Some(s),
        Err(_) => None,
    }
}

/// The first piece of the envelope text, before the nonce field's value.
pub open spec fn env_prefix() -> Seq<char> {
    "{\"nonce\":\""@
}

/// The middle piece of the envelope text, between the two field values.
pub open spec fn env_mid() -> Seq<char> {
    "\",\"ciphertext\":\""@
}

/// The last piece of the envelope text, after the ciphertext field's value.
pub open spec fn env_tail() -> Seq<char> {
    "\"}"@
}

/// The JSON text envelope around one encrypted record: an object with a
/// base64 nonce field and a base64 ciphertext field.
pub open spec fn envelope_chars(nonce_b64: Seq<char>, ct_b64: Seq<char>) -> Seq<char> {
    env_prefix() + nonce_b64 + env_mid() + ct_b64 + env_tail()
}

proof fn lemma_envelope_pieces()
    ensures
        env_prefix().len() == 10,
        env_mid().len() == 16,
        env_tail().len() == 2,
        env_mid()[0] == '"',
        env_tail()[0] == '"',
        env_tail()[1] == '}',
{
    reveal_strlit("{\"nonce\":\"");
    reveal_strlit("\",\"ciphertext\":\"");
    reveal_strlit("\"}");
}

/// The envelope determines its fields: two envelopes with quote-free fields
/// are equal only if the fields are.
pub proof fn lemma_envelope_inj(a0: Seq<char>, a1: Seq<char>, b0: Seq<char>, b1: Seq<char>)
    requires
        envelope_chars(a0, a1) == envelope_chars(b0, b1),
        quote_free(a0),
        quote_free(a1),
        quote_free(b0),
        quote_free(b1),
    ensures
        a0 == b0,
        a1 == b1,
{
    lemma_envelope_pieces();
    let ea = envelope_chars(a0, a1);
    let eb = envelope_chars(b0, b1);
    assert(ea.len() == 28 + a0.len() + a1.len());
    assert(eb.len() == 28 + b0.len() + b1.len());
    if a0.len() < b0.len() {
        // Position 10 + a0.len() holds a quote in ea but a character of b0 in eb.
        let i = 10 + a0.len() as int;
        assert(ea[i] == env_mid()[0]);
        assert(eb[i] == b0[a0.len() as int]);
        assert(false);
    }
    if b0.len() < a0.len() {
        let i = 10 + b0.len() as int;
        assert(eb[i] == env_mid()[0]);
        assert(ea[i] == a0[b0.len() as int]);
        assert(false);
    }
    assert(a0.len() == b0.len());
    assert(a1.len() == b1.len());
    assert forall|i: int| 0 <= i < a0.len() implies a0[i] == b0[i] by {
        assert(ea[10 + i] == a0[i]);
        assert(eb[10 + i] == b0[i]);
    }
    assert forall|i: int| 0 <= i < a1.len() implies a1[i] == b1[i] by {
        assert(ea[26 + a0.len() + i] == a1[i]);
        assert(eb[26 + b0.len() + i] == b1[i]);
    }
    assert(a0 =~= b0);
    assert(a1 =~= b1);
}

fn env_prefix_str() -> (r: &'static str)
    ensures
        r@ == env_prefix(),
{
    "{\"nonce\":\""
}

fn env_mid_str() -> (r: &'static str)
    ensures
        r@ == env_mid(),
{
    "\",\"ciphertext\":\""
}

proof fn lemma_envelope_structure(nb: Seq<char>, cb: Seq<char>, s: Seq<char>)
    requires
        s == envelope_chars(nb, cb),
        quote_free(nb),
        quote_free(cb),
    ensures
        s.len() == 28 + nb.len() + cb.len(),
        forall|j: int| 0 <= j < 10 ==> s[j] == env_prefix()[j],
        forall|j: int| 10 <= j < 10 + nb.len() ==> s[j] == nb[j - 10] && #[trigger] s[j] != '"',
        s[10 + nb.len() as int] == '"',
        forall|j: int| 0 <= j < 16 ==> #[trigger] s[10 + nb.len() + j] == env_mid()[j],
        forall|j: int|
            26 + nb.len() <= j < 26 + nb.len() + cb.len() ==> s[j] == cb[j - 26 - nb.len()]
                && #[trigger] s[j] != '"',
        s[26 + nb.len() as int + cb.len() as int] == '"',
        s[27 + nb.len() as int + cb.len() as int] == '}',
{
    lemma_envelope_pieces();
    assert(s.len() == 28 + nb.len() + cb.len());
    assert(s[10 + nb.len() as int] == env_mid()[0]);
    assert(s[26 + nb.len() as int + cb.len() as int] == env_tail()[0]);
    assert(s[27 + nb.len() as int + cb.len() as int] == env_tail()[1]);
}

/// Reads the envelope text back into its two fields.
///
/// Returns the two base64 fields exactly when the text is an envelope with
/// quote-free fields, and then returns those fields.
#[verifier::loop_isolation(false)]
pub fn parse_envelope(s: &str) -> (r: Option<(String, String)>)
    ensures
        r matches Some(p) ==> s@ == envelope_chars(p.0@, p.1@) && quote_free(p.0@) && quote_free(
            p.1@,
        ),
        r is None ==> forall|nb: Seq<char>, cb: Seq<char>|
            !(s@ == envelope_chars(nb, cb) && quote_free(nb) && quote_free(cb)),
{
    proof {
        lemma_envelope_pieces();
    }
    let n = s.unicode_len();
    if n < 28 {
        proof {
            assert forall|nb: Seq<char>, cb: Seq<char>|
                !(s@ == envelope_chars(nb, cb) && quote_free(nb) && quote_free(cb)) by {
                if s@ == envelope_chars(nb, cb) && quote_free(nb) && quote_free(cb) {
                    lemma_envelope_structure(nb, cb, s@);
                }
            }
        }
        return None;
    }
    let pre = env_prefix_str();
    let mut i: usize = 0;
    while i < 10
        invariant
            0 <= i <= 10,
            n == s@.len(),
            n >= 28,
            pre@ == env_prefix(),
            env_prefix().len() == 10,
            forall|j: int| 0 <= j < i ==> s@[j] == env_prefix()[j],
        decreases 10 - i,
    {
        if s.get_char(i) != pre.get_char(i) {
            proof {
                assert forall|nb: Seq<char>, cb: Seq<char>|
                    !(s@ == envelope_chars(nb, cb) && quote_free(nb) && quote_free(cb)) by {
                    if s@ == envelope_chars(nb, cb) && quote_free(nb) && quote_free(cb) {
                        lemma_envelope_structure(nb, cb, s@);
                    }
                }
            }
            return None;
        }
        i += 1;
    }
    let mut q1: usize = 10;
    while q1 < n && s.get_char(q1) != '"'
        invariant
            10 <= q1 <= n,
            n == s@.len(),
            n >= 28,
            forall|j: int| 10 <= j < q1 ==> #[trigger] s@[j] != '"',
        decreases n - q1,
    {
        q1 += 1;
    }
    if q1 == n {
        proof {
            assert forall|nb: Seq<char>, cb: Seq<char>|
                !(s@ == envelope_chars(nb, cb) && quote_free(nb) && quote_free(cb)) by {
                if s@ == envelope_chars(nb, cb) && quote_free(nb) && quote_free(cb) {
                    lemma_envelope_structure(nb, cb, s@);
                    assert(s@[10 + nb.len() as int] == '"');
                }
            }
        }
        return None;
    }
    assert(s@[q1 as int] == '"');
    proof {
        // Under the envelope hypothesis the first quote at or after 10 sits
        // right after the nonce field.
        assert forall|nb: Seq<char>, cb: Seq<char>|
            (s@ == envelope_chars(nb, cb) && quote_free(nb) && quote_free(cb)) implies q1 == 10
            + nb.len() by {
            lemma_envelope_structure(nb, cb, s@);
            if q1 < 10 + nb.len() {
                assert(s@[q1 as int] != '"');
            }
            if q1 > 10 + nb.len() {
                assert(s@[10 + nb.len() as int] == '"');
            }
        }
    }
    if n - q1 < 18 {
        proof {
            assert forall|nb: Seq<char>, cb: Seq<char>|
                !(s@ == envelope_chars(nb, cb) && quote_free(nb) && quote_free(cb)) by {
                if s@ == envelope_chars(nb, cb) && quote_free(nb) && quote_free(cb) {
                    lemma_envelope_structure(nb, cb, s@);
                }
            }
        }
        return None;
    }
    let mid = env_mid_str();
    let mut k: usize = 0;
    while k < 16
        invariant
            0 <= k <= 16,
            n == s@.len(),
            10 <= q1,
            n - q1 >= 18,
            mid@ == env_mid(),
            env_mid().len() == 16,
            forall|j: int| 0 <= j < k ==> #[trigger] s@[q1 + j] == env_mid()[j],
        decreases 16 - k,
    {
        if s.get_char(q1 + k) != mid.get_char(k) {
            proof {
                assert forall|nb: Seq<char>, cb: Seq<char>|
                    !(s@ == envelope_chars(nb, cb) && quote_free(nb) && quote_free(cb)) by {
                    if s@ == envelope_chars(nb, cb) && quote_free(nb) && quote_free(cb) {
                        lemma_envelope_structure(nb, cb, s@);
                        assert(q1 == 10 + nb.len());
                        assert(s@[10 + nb.len() + k] == env_mid()[k as int]);
                    }
                }
            }
            return None;
        }
        k += 1;
    }
    let mut q2: usize = q1 + 16;
    while q2 < n && s.get_char(q2) != '"'
        invariant
            q1 + 16 <= q2 <= n,
            n == s@.len(),
            forall|j: int| q1 + 16 <= j < q2 ==> #[trigger] s@[j] != '"',
        decreases n - q2,
    {
        q2 += 1;
    }
    if q2 == n {
        proof {
            assert forall|nb: Seq<char>, cb: Seq<char>|
                !(s@ == envelope_chars(nb, cb) && quote_free(nb) && quote_free(cb)) by {
                if s@ == envelope_chars(nb, cb) && quote_free(nb) && quote_free(cb) {
                    lemma_envelope_structure(nb, cb, s@);
                    assert(s@[26 + nb.len() as int + cb.len() as int] == '"');
                }
            }
        }
        return None;
    }
    assert(s@[q2 as int] == '"');
    proof {
        assert forall|nb: Seq<char>, cb: Seq<char>|
            (s@ == envelope_chars(nb, cb) && quote_free(nb) && quote_free(cb)) implies q2 == 26
            + nb.len() + cb.len() by {
            lemma_envelope_structure(nb, cb, s@);
            if q2 < 26 + nb.len() + cb.len() {
                assert(s@[q2 as int] != '"');
            }
            if q2 > 26 + nb.len() + cb.len() {
                assert(s@[26 + nb.len() as int + cb.len() as int] == '"');
            }
        }
    }
    if n - q2 != 2 {
        proof {
            assert forall|nb: Seq<char>, cb: Seq<char>|
                !(s@ == envelope_chars(nb, cb) && quote_free(nb) && quote_free(cb)) by {
                if s@ == envelope_chars(nb, cb) && quote_free(nb) && quote_free(cb) {
                    lemma_envelope_structure(nb, cb, s@);
                }
            }
        }
        return None;
    }
    if s.get_char(q2 + 1) != '}' {
        proof {
            assert forall|nb: Seq<char>, cb: Seq<char>|
                !(s@ == envelope_chars(nb, cb) && quote_free(nb) && quote_free(cb)) by {
                if s@ == envelope_chars(nb, cb) && quote_free(nb) && quote_free(cb) {
                    lemma_envelope_structure(nb, cb, s@);
                    assert(s@[27 + nb.len() as int + cb.len() as int] == '}');
                }
            }
        }
        return None;
    }
    let nb_part = s.substring_char(10, q1);
    let cb_part = s.substring_char(q1 + 16, q2);
    proof {
        let nb = s@.subrange(10, q1 as int);
        let cb = s@.subrange(q1 + 16, q2 as int);
        assert(nb_part@ == nb);
        assert(cb_part@ == cb);
        assert(quote_free(nb));
        assert(quote_free(cb));
        assert(s@ =~= envelope_chars(nb, cb)) by {
            assert(envelope_chars(nb, cb).len() == 28 + nb.len() + cb.len());
            assert(s@.len() == 28 + nb.len() + cb.len());
            assert forall|j: int| 0 <= j < s@.len() implies s@[j] == envelope_chars(nb, cb)[j] by {
                let e = envelope_chars(nb, cb);
                if j < 10 {
                    assert(e[j] == env_prefix()[j]);
                } else if j < q1 {
                    assert(e[j] == nb[j - 10]);
                    assert(nb[j - 10] == s@[j]);
                } else if j < q1 + 16 {
                    assert(e[j] == env_mid()[j - q1]);
                    assert(s@[q1 + (j - q1)] == env_mid()[j - q1]);
                } else if j < q2 {
                    assert(e[j] == cb[j - q1 - 16]);
                    assert(cb[j - q1 - 16] == s@[j]);
                } else if j == q2 {
                    assert(e[j] == env_tail()[0]);
                } else {
                    assert(j == q2 + 1);
                    assert(e[j] == env_tail()[1]);
                }
            }
        }
    }
    Some((String::from_str(nb_part), String::from_str(cb_part)))
}

/// Writes the envelope text around the two base64 fields.
pub fn make_envelope(nonce_b64: &str, ct_b64: &str) -> (r: String)
    ensures
        r@ == envelope_chars(nonce_b64@, ct_b64@),
{
    let mut s = String::from_str(env_prefix_str());
    s.append(nonce_b64);
    s.append(env_mid_str());
    s.append(ct_b64);
    s.append("\"}");
    proof {
        assert(("\"}")@ == env_tail());
    }
    s
}


/// Whether `text` is the envelope of plaintext bytes `pb` sealed under
/// `key` with nonce `n`, with both base64 fields in the alphabet.
pub open spec fn sealed_envelope(key: Seq<u8>, n: Seq<u8>, pb: Seq<u8>, text: Seq<char>) -> bool {
    &&& n.len() == 12
    &&& valid_utf8(pb)
    &&& is_b64_seq(b64_of(n))
    &&& is_b64_seq(b64_of(aead_seal(key, n, pb)))
    &&& text == envelope_chars(b64_of(n), b64_of(aead_seal(key, n, pb)))
}

/// Encrypts a plaintext under a 256-bit key: a fresh random 12-byte nonce,
/// AES-256-GCM sealing, and the JSON text envelope around the two base64
/// fields. A key of any other length is rejected as an encryption failure.
pub fn encrypt_value(key: &[u8], plaintext: &str) -> (r: Result<String, StorageError>)
    requires
        encode_utf8(plaintext@).len() <= seal_limit(),
    ensures
        r is Ok ==> key@.len() == 32,
        r is Ok ==> exists|n: Seq<u8>|
            #[trigger] sealed_envelope(key@, n, encode_utf8(plaintext@), (r->Ok_0)@),
        r matches Err(e) ==> e matches StorageError::EncryptionError(_),
        key@.len() != 32 ==> r is Err,
{
    if key.len() != 32 {
        return Err(StorageError::EncryptionError(String::from_str("key must be 32 bytes")));
    }
    proof {
        broadcast use vstd::slice::axiom_spec_len;

        assert(key@.len() == 32);
    }
    let nonce = match random_bytes(12) {
        Some(v) => v,
        None => {
            return Err(
                StorageError::EncryptionError(String::from_str("random source unavailable")),
            );
        },
    };
    let sealed = match aes_gcm_seal(key, nonce.as_slice(), plaintext.as_bytes()) {
        Some(c) => c,
        None => {
            return Err(StorageError::EncryptionError(String::from_str("sealing failed")));
        },
    };
    let nb = b64_encode(nonce.as_slice());
    let cb = b64_encode(sealed.as_slice());
    let envelope = make_envelope(nb.as_str(), cb.as_str());
    let res: Result<String, StorageError> = Ok(envelope);
    proof {
        encode_utf8_valid_utf8(plaintext@);
        assert(sealed@ == aead_seal(key@, nonce@, encode_utf8(plaintext@)));
        assert(res matches Ok(env) && env@ == envelope@);
        assert(sealed_envelope(key@, nonce@, encode_utf8(plaintext@), (res->Ok_0)@));
        assert(exists|n: Seq<u8>|
            #[trigger] sealed_envelope(key@, n, encode_utf8(plaintext@), (res->Ok_0)@));
    }
    res
}

/// Decrypts a stored envelope under a 256-bit key.
///
/// Succeeds on every envelope that `encrypt_value` can have produced under
/// the same key, and then returns the plaintext that was sealed; every
/// success attests that the text is such an envelope, so a tampered record
/// is never read back as some other plaintext.
pub fn decrypt_value(key: &[u8], text: &str) -> (r: Result<String, StorageError>)
    requires
        key@.len() == 32,
    ensures
        r matches Ok(p) ==> exists|n: Seq<u8>, pb: Seq<u8>|
            {
                &&& n.len() == 12
                &&& valid_utf8(pb)
                &&& p@ == decode_utf8(pb)
                &&& text@ == envelope_chars(b64_of(n), #[trigger] b64_of(aead_seal(key@, n, pb)))
            },
        r matches Err(e) ==> e matches StorageError::DecryptionError(_) || e matches StorageError::Base64Error(
            _,
        ),
        forall|n: Seq<u8>, pb: Seq<u8>| #[trigger] sealed_envelope(key@, n, pb, text@) ==> (
        r matches Ok(p) && p@ == decode_utf8(pb)),
{
    let parsed = match parse_envelope(text) {
        Some(p) => p,
        None => {
            proof {
                assert forall|n: Seq<u8>, pb: Seq<u8>| !#[trigger] sealed_envelope(
                    key@,
                    n,
                    pb,
                    text@,
                ) by {
                    if sealed_envelope(key@, n, pb, text@) {
                        lemma_b64_seq_quote_free(b64_of(n));
                        lemma_b64_seq_quote_free(b64_of(aead_seal(key@, n, pb)));
                    }
                }
            }
            return Err(
                StorageError::DecryptionError(
                    String::from_str("stored value is not an encrypted record envelope"),
                ),
            );
        },
    };
    let (nb, cb) = parsed;
    proof {
        assert forall|n: Seq<u8>, pb: Seq<u8>| #[trigger]
            sealed_envelope(key@, n, pb, text@) implies nb@ == b64_of(n) && cb@ == b64_of(
            aead_seal(key@, n, pb),
        ) by {
            lemma_b64_seq_quote_free(b64_of(n));
            lemma_b64_seq_quote_free(b64_of(aead_seal(key@, n, pb)));
            lemma_envelope_inj(nb@, cb@, b64_of(n), b64_of(aead_seal(key@, n, pb)));
        }
    }
    let nonce = match b64_decode(nb.as_str()) {
        Some(v) => v,
        None => {
            proof {
                assert forall|n: Seq<u8>, pb: Seq<u8>| !#[trigger] sealed_envelope(
                    key@,
                    n,
                    pb,
                    text@,
                ) by {
                    if sealed_envelope(key@, n, pb, text@) {
                        assert(nb@ == b64_of(n));
                    }
                }
            }
            return Err(StorageError::Base64Error(String::from_str("nonce field")));
        },
    };
    if nonce.len() != 12 {
        proof {
            assert forall|n: Seq<u8>, pb: Seq<u8>| !#[trigger] sealed_envelope(
                key@,
                n,
                pb,
                text@,
            ) by {
                if sealed_envelope(key@, n, pb, text@) {
                    assert(nb@ == b64_of(n));
                    assert(nonce@ == n);
                }
            }
        }
        return Err(StorageError::DecryptionError(String::from_str("nonce must be 12 bytes")));
    }
    let ct = match b64_decode(cb.as_str()) {
        Some(v) => v,
        None => {
            proof {
                assert forall|n: Seq<u8>, pb: Seq<u8>| !#[trigger] sealed_envelope(
                    key@,
                    n,
                    pb,
                    text@,
                ) by {
                    if sealed_envelope(key@, n, pb, text@) {
                        assert(cb@ == b64_of(aead_seal(key@, n, pb)));
                    }
                }
            }
            return Err(StorageError::Base64Error(String::from_str("ciphertext field")));
        },
    };
    let opened = match aes_gcm_open(key, nonce.as_slice(), ct.as_slice()) {
        Some(v) => v,
        None => {
            proof {
                assert forall|n: Seq<u8>, pb: Seq<u8>| !#[trigger] sealed_envelope(
                    key@,
                    n,
                    pb,
                    text@,
                ) by {
                    if sealed_envelope(key@, n, pb, text@) {
                        assert(nonce@ == n);
                        assert(ct@ == aead_seal(key@, n, pb));
                    }
                }
            }
            return Err(
                StorageError::DecryptionError(String::from_str("authentication tag mismatch")),
            );
        },
    };
    let plain = match utf8_to_string(opened) {
        Some(s) => s,
        None => {
            proof {
                assert forall|n: Seq<u8>, pb: Seq<u8>| !#[trigger] sealed_envelope(
                    key@,
                    n,
                    pb,
                    text@,
                ) by {
                    if sealed_envelope(key@, n, pb, text@) {
                        assert(nonce@ == n);
                        assert(ct@ == aead_seal(key@, n, pb));
                        assert(ct@ == aead_seal(key@, nonce@, opened@));
                        assert(opened@ == pb);
                    }
                }
            }
            return Err(StorageError::DecryptionError(String::from_str("plaintext is not UTF-8")));
        },
    };
    proof {
        assert(ct@ == aead_seal(key@, nonce@, opened@));
        assert(text@ == envelope_chars(b64_of(nonce@), b64_of(aead_seal(key@, nonce@, opened@))));
        assert forall|n: Seq<u8>, pb: Seq<u8>| #[trigger]
            sealed_envelope(key@, n, pb, text@) implies plain@ == decode_utf8(pb) by {
            assert(nonce@ == n);
            assert(ct@ == aead_seal(key@, n, pb));
            assert(opened@ == pb);
        }
    }
    Ok(plain)
}

/// Round trip: decrypting what `encrypt_value` produced, under the same
/// key, returns the original plaintext. The only failure an honest round
/// trip can report comes from the encryption side (entropy or sealing);
/// once a record is produced, its decryption succeeds and is exact.
pub fn encrypt_decrypt_round_trip(key: &[u8], plaintext: &str) -> (r: Result<
    String,
    StorageError,
>)
    requires
        key@.len() == 32,
        encode_utf8(plaintext@).len() <= seal_limit(),
    ensures
        r matches Ok(p) ==> p@ == plaintext@,
        r matches Err(e) ==> e matches StorageError::EncryptionError(_),
{
    let env = match encrypt_value(key, plaintext) {
        Ok(e) => e,
        Err(e) => {
            return Err(e);
        },
    };
    let r2 = decrypt_value(key, env.as_str());
    proof {
        let n = choose|n: Seq<u8>| #[trigger] sealed_envelope(
            key@,
            n,
            encode_utf8(plaintext@),
            env@,
        );
        encode_utf8_decode_utf8(plaintext@);
        assert(r2 matches Ok(p) && p@ == decode_utf8(encode_utf8(plaintext@)));
    }
    match r2 {
        Ok(p) => Ok(p),
        Err(_) => Err(StorageError::EncryptionError(String::new())),
    }
}

} // verus!
