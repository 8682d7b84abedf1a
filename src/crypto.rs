//! Encryption at rest of secret variable values, tied to the machine.

use vstd::prelude::*;
use vstd::string::*;
use vstd::utf8::{decode_utf8, encode_utf8, valid_utf8};

use aes_gcm::aead::{Aead, KeyInit, OsRng};
use aes_gcm::{Aes256Gcm, Nonce};
use rand::RngCore;
use sha2::{Digest, Sha256};

use crate::codec::{base64_decode, base64_decoded, base64_encode, base64_encoded, utf8_string};
use crate::text::{joined, text_of};

verus! {

/// The length of the nonce that starts every sealed value.
pub const NONCE_LEN: usize = 12;

/// The SHA-256 digest of bytes.
pub uninterp spec fn sha256_digest(b: Seq<u8>) -> Seq<u8>;

/// What AES-256-GCM seals from a key, a nonce and a plaintext: the
/// ciphertext followed by the tag.
pub uninterp spec fn gcm_sealed(key: Seq<u8>, nonce: Seq<u8>, plaintext: Seq<u8>) -> Seq<u8>;

/// What AES-256-GCM opens from a key, a nonce and sealed bytes; `None` when
/// the tag does not authenticate them.
pub uninterp spec fn gcm_opened(key: Seq<u8>, nonce: Seq<u8>, sealed: Seq<u8>) -> Option<Seq<u8>>;

/// Relies on `sha2::Sha256::digest`: 32 bytes that depend on the input alone.
#[verifier::external_body]
fn sha256(b: &[u8]) -> (r: Vec<u8>)
    ensures
        r@ == sha256_digest(b@),
        r@.len() == 32,
{
    Sha256::digest(b).to_vec()
}

/// The longest plaintext AES-256-GCM seals, in bytes (2^36).
pub const MAX_PLAINTEXT_LEN: u64 = 0x1000000000;

/// Relies on `Aes256Gcm::encrypt` (the cipher made by `new_from_slice`,
/// which accepts any 32-byte key; `Nonce::from_slice` takes 12 bytes). It
/// fails only for plaintexts longer than `P_MAX`, 2^36 bytes.
#[verifier::external_body]
fn gcm_encrypt(key: &[u8], nonce: &[u8], plaintext: &[u8]) -> (r: Result<Vec<u8>, String>)
    requires
        key@.len() == 32,
        nonce@.len() == 12,
    ensures
        r matches Ok(c) ==> c@ == gcm_sealed(key@, nonce@, plaintext@),
        plaintext@.len() <= MAX_PLAINTEXT_LEN ==> r is Ok,
{
    match Aes256Gcm::new_from_slice(key) {
        Ok(cipher) => cipher.encrypt(Nonce::from_slice(nonce), plaintext).map_err(|e| e.to_string()),
        Err(e) => Err(e.to_string()),
    }
}

/// Relies on `Aes256Gcm::decrypt` (the cipher made by `new_from_slice`).
#[verifier::external_body]
fn gcm_decrypt(key: &[u8], nonce: &[u8], sealed: &[u8]) -> (r: Result<Vec<u8>, String>)
    requires
        key@.len() == 32,
        nonce@.len() == 12,
    ensures
        r is Ok <==> gcm_opened(key@, nonce@, sealed@) is Some,
        r matches Ok(p) ==> gcm_opened(key@, nonce@, sealed@) == Some(p@),
{
    match Aes256Gcm::new_from_slice(key) {
        Ok(cipher) => cipher.decrypt(Nonce::from_slice(nonce), sealed).map_err(|e| e.to_string()),
        Err(e) => Err(e.to_string()),
    }
}

/// Relies on `OsRng::try_fill_bytes`: twelve bytes from the operating
/// system's random source, or its error when the source fails.
#[verifier::external_body]
fn random_nonce() -> (r: Result<Vec<u8>, String>)
    ensures
        r matches Ok(n) ==> n@.len() == 12,
{
    let mut nonce = [0u8; 12];
    match OsRng.try_fill_bytes(&mut nonce) {
        Ok(()) => Ok(nonce.to_vec()),
        Err(e) => Err(e.to_string()),
    }
}

/// Relies on `hostname::get`: the machine's name, if it can be read.
#[verifier::external_body]
fn host_name() -> (r: Option<String>) {
    hostname::get().ok().map(|h| h.to_string_lossy().to_string())
}

/// The seed the key is derived from, for a host name (or none).
pub open spec fn seed_text(host: Option<Seq<char>>) -> Seq<char> {
    "steq-secret-key-"@ + match host {
        Some(h) => h,
        None => "steq-default"@,
    }
}

/// The key derived from a seed.
pub open spec fn key_of(seed: Seq<char>) -> Seq<u8> {
    sha256_digest(encode_utf8(seed))
}

/// The stored form of a secret: base64 of the nonce followed by the sealed
/// plaintext.
pub open spec fn sealed_text(key: Seq<u8>, nonce: Seq<u8>, plaintext: Seq<char>) -> Seq<char> {
    base64_encoded(nonce + gcm_sealed(key, nonce, encode_utf8(plaintext)))
}

/// What opening a stored secret gives: the text, or the reason it failed.
pub open spec fn opened_text(key: Seq<u8>, stored: Seq<char>) -> Result<Seq<char>, Seq<char>> {
    match base64_decoded(encode_utf8(stored)) {
        None => Err("Failed to decode base64: "@),
        Some(b) => if b.len() < 12 {
            Err("Encrypted data too short"@)
        } else {
            match gcm_opened(key, b.subrange(0, 12), b.subrange(12, b.len() as int)) {
                None => Err("Decryption failed: "@),
                Some(p) => if valid_utf8(p) {
                    Ok(decode_utf8(p))
                } else {
                    Err("Invalid UTF-8 in decrypted data: "@)
                },
            }
        },
    }
}

/// The key-derivation seed for the host name read from the machine.
pub fn machine_seed(host: Option<String>) -> (r: String)
    ensures
        r@ == seed_text(text_of(host)),
{
    match &host {
        Some(h) => joined("steq-secret-key-", h.as_str()),
        None => joined("steq-secret-key-", "steq-default"),
    }
}

/// The 256-bit key for a seed: its SHA-256 digest.
pub fn derive_key(seed: &str) -> (r: Vec<u8>)
    ensures
        r@ == key_of(seed@),
        r@.len() == 32,
{
    sha256(seed.as_bytes())
}

/// Seals a plaintext under a key with the given nonce, stored as base64 of
/// the nonce followed by the ciphertext and tag.
pub fn seal_text(key: &Vec<u8>, nonce: &Vec<u8>, plaintext: &str) -> (r: Result<String, String>)
    requires
        key@.len() == 32,
        nonce@.len() == NONCE_LEN,
    ensures
        r matches Ok(t) ==> t@ == sealed_text(key@, nonce@, plaintext@),
        encode_utf8(plaintext@).len() <= MAX_PLAINTEXT_LEN ==> r is Ok,
        r matches Err(e) ==> has_prefix(e@, "Encryption failed: "@),
{
    let sealed = match gcm_encrypt(key.as_slice(), nonce.as_slice(), plaintext.as_bytes()) {
        Ok(c) => c,
        Err(e) => {
            proof {
                prefix_of_joined("Encryption failed: "@, e@);
            }
            return Err(joined("Encryption failed: ", e.as_str()));
        },
    };
    let mut combined: Vec<u8> = Vec::new();
    let mut i: usize = 0;
    while i < nonce.len()
        invariant
            i <= nonce@.len(),
            combined@ == nonce@.subrange(0, i as int),
        decreases nonce@.len() - i,
    {
        combined.push(nonce[i]);
        i = i + 1;
    }
    let mut j: usize = 0;
    while j < sealed.len()
        invariant
            j <= sealed@.len(),
            combined@ == nonce@ + sealed@.subrange(0, j as int),
        decreases sealed@.len() - j,
    {
        combined.push(sealed[j]);
        j = j + 1;
    }
    proof {
        assert(sealed@.subrange(0, sealed@.len() as int) == sealed@);
    }
    Ok(base64_encode(combined.as_slice()))
}

fn copy_range(b: &Vec<u8>, from: usize, to: usize) -> (r: Vec<u8>)
    requires
        from <= to <= b@.len(),
    ensures
        r@ == b@.subrange(from as int, to as int),
{
    let mut out: Vec<u8> = Vec::new();
    let mut i: usize = from;
    while i < to
        invariant
            from <= i <= to,
            to <= b@.len(),
            out@ == b@.subrange(from as int, i as int),
        decreases to - i,
    {
        out.push(b[i]);
        i = i + 1;
    }
    out
}

pub open spec fn has_prefix(e: Seq<char>, p: Seq<char>) -> bool {
    e.len() >= p.len() && e.subrange(0, p.len() as int) == p
}

proof fn prefix_of_joined(p: Seq<char>, rest: Seq<char>)
    ensures
        has_prefix(p + rest, p),
{
    assert((p + rest).subrange(0, p.len() as int) == p);
}

/// Opens a stored secret under a key. The error names the step that failed
/// and carries the underlying message after its prefix.
pub fn open_text(key: &Vec<u8>, stored: &str) -> (r: Result<String, String>)
    requires
        key@.len() == 32,
    ensures
        r is Ok <==> opened_text(key@, stored@) is Ok,
        r matches Ok(t) ==> opened_text(key@, stored@) == Ok::<Seq<char>, Seq<char>>(t@),
        r matches Err(e) ==> opened_text(key@, stored@) matches Err(p) && has_prefix(e@, p),
{
    let combined = match base64_decode(stored.as_bytes()) {
        Ok(b) => b,
        Err(e) => {
            proof {
                prefix_of_joined("Failed to decode base64: "@, e@);
            }
            return Err(joined("Failed to decode base64: ", e.as_str()));
        },
    };
    if combined.len() < NONCE_LEN {
        proof {
            prefix_of_joined("Encrypted data too short"@, Seq::empty());
            assert("Encrypted data too short"@ + Seq::<char>::empty() == "Encrypted data too short"@);
        }
        return Err("Encrypted data too short".to_owned());
    }
    let nonce = copy_range(&combined, 0, NONCE_LEN);
    let sealed = copy_range(&combined, NONCE_LEN, combined.len());
    let plain = match gcm_decrypt(key.as_slice(), nonce.as_slice(), sealed.as_slice()) {
        Ok(p) => p,
        Err(e) => {
            proof {
                prefix_of_joined("Decryption failed: "@, e@);
            }
            return Err(joined("Decryption failed: ", e.as_str()));
        },
    };
    match utf8_string(plain) {
        Ok(t) => Ok(t),
        Err(e) => {
            proof {
                prefix_of_joined("Invalid UTF-8 in decrypted data: "@, e@);
            }
            Err(joined("Invalid UTF-8 in decrypted data: ", e.as_str()))
        },
    }
}

/// Encrypts a secret for storage on this machine: a fresh random nonce, the
/// key derived from the machine's name, and the stored form of `seal_text`.
/// It fails only when the random source fails (the error then says so) or
/// for a plaintext beyond the cipher's limit.
pub fn encrypt(plaintext: &str) -> (r: Result<String, String>)
    ensures
        r matches Ok(t) ==> exists|host: Option<Seq<char>>, nonce: Seq<u8>|
            nonce.len() == 12 && t@ == sealed_text(key_of(seed_text(host)), nonce, plaintext@),
        r matches Err(e) ==> has_prefix(e@, "Failed to generate nonce: "@) || (has_prefix(
            e@,
            "Encryption failed: "@,
        ) && encode_utf8(plaintext@).len() > MAX_PLAINTEXT_LEN),
{
    let seed = machine_seed(host_name());
    let key = derive_key(seed.as_str());
    let nonce = match random_nonce() {
        Ok(n) => n,
        Err(e) => {
            proof {
                prefix_of_joined("Failed to generate nonce: "@, e@);
            }
            return Err(joined("Failed to generate nonce: ", e.as_str()));
        },
    };
    seal_text(&key, &nonce, plaintext)
}

/// Decrypts a secret stored by `encrypt` on this machine.
pub fn decrypt(encrypted: &str) -> (r: Result<String, String>)
    ensures
        exists|host: Option<Seq<char>>| {
            let opened = #[trigger] opened_text(key_of(seed_text(host)), encrypted@);
            &&& (r is Ok <==> opened is Ok)
            &&& r matches Ok(t) ==> opened == Ok::<Seq<char>, Seq<char>>(t@)
        },
{
    let host = host_name();
    let ghost h = text_of(host);
    let seed = machine_seed(host);
    let key = derive_key(seed.as_str());
    let r = open_text(&key, encrypted);
    assert(opened_text(key_of(seed_text(h)), encrypted@) == opened_text(key@, encrypted@));
    r
}

} // verus!
