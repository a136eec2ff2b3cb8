//! Stark Future cloud API: response records and the `x-auth` header.
//!
//! The HTTP exchanges themselves (sign-in, update check, download, token
//! refresh against `https://api.starkfuture.com`) are I/O; what they carry
//! and how the update endpoint's device header is made are here.

use vstd::prelude::*;

use vstd::utf8::encode_utf8;

use crate::text::{hex_lower, push_hex};

verus! {

/// The API's base URL.
pub const API_BASE: &'static str = "https://api.starkfuture.com";

/// The AES-256 key used by the update library to generate the `x-auth`
/// header (`"K1YeVf4uN5gXLw00zdYLvylYwMu64aVe"` in ASCII).
pub const UPDATE_AUTH_KEY: [u8; 32] = [
    0x4b, 0x31, 0x59, 0x65, 0x56, 0x66, 0x34, 0x75, 0x4e, 0x35, 0x67, 0x58, 0x4c, 0x77, 0x30, 0x30,
    0x7a, 0x64, 0x59, 0x4c, 0x76, 0x79, 0x6c, 0x59, 0x77, 0x4d, 0x75, 0x36, 0x34, 0x61, 0x56, 0x65,
];

/// Device identifier used for non-Emdoor phones: the official app sends the
/// upper-cased manufacturer, `"BLACKVIEW"` for the bike's Blackview handsets.
pub const DEVICE_ID: &'static str = "BLACKVIEW";

/// Response to a sign-in request.
#[derive(Debug, Clone)]
pub struct AuthResponse {
    pub token: Option<String>,
}

/// A firmware release as the update endpoint describes it.
#[derive(Debug, Clone)]
pub struct Firmware {
    pub _id: String,
    pub name: String,
    pub phone_app: Option<UpdateDetail>,
    pub phone_firmware: Option<UpdateDetail>,
    pub bike_firmware: Option<UpdateDetail>,
    pub status: String,
    pub created_at: String,
    pub updated_at: String,
}

/// One downloadable part of a firmware release.
#[derive(Debug, Clone)]
pub struct UpdateDetail {
    pub _id: String,
    pub name: String,
    pub kind: String,
    pub build_version: String,
    pub version_number: String,
    pub status: String,
    pub file: FileInfo,
    pub created_at: String,
    pub updated_at: String,
    pub url: String,
}

/// Where a firmware file is stored.
#[derive(Debug, Clone)]
pub struct FileInfo {
    pub key: String,
    pub bucket: String,
}

/// Response to a token refresh.
#[derive(Debug, Clone)]
pub struct TokenResponse {
    pub token: Option<String>,
}

/// The ciphertext of `plaintext` under AES-256 in CBC mode with PKCS#7
/// padding, for `key` and `iv`.
pub uninterp spec fn aes256_cbc_pkcs7(key: Seq<u8>, iv: Seq<u8>, plaintext: Seq<u8>) -> Seq<u8>;

/// Encrypts with `cbc::Encryptor<aes::Aes256>` (`KeyIvInit::new`, then
/// `BlockEncryptMut::encrypt_padded_vec_mut::<Pkcs7>`). The contract names
/// the ciphertext as a function of key, IV and plaintext; its bytes are not
/// stated.
#[verifier::external_body]
fn aes256_cbc_encrypt(key: &[u8; 32], iv: &[u8; 16], plaintext: &[u8]) -> (ct: Vec<u8>)
    ensures
        ct@ == aes256_cbc_pkcs7(key@, iv@, plaintext@),
{
    let enc = <cbc::Encryptor<aes::Aes256> as aes::cipher::KeyIvInit>::new(key.into(), iv.into());
    <cbc::Encryptor<aes::Aes256> as aes::cipher::BlockEncryptMut>::encrypt_padded_vec_mut::<
        aes::cipher::block_padding::Pkcs7,
    >(enc, plaintext)
}

/// Draws a fresh IV with `getrandom::fill`: `None` when the system's
/// random source fails. Nothing is stated of the bytes drawn.
#[verifier::external_body]
fn random_iv() -> (iv: Option<[u8; 16]>) {
    let mut iv = [0u8; 16];
    match getrandom::fill(&mut iv) {
        Ok(()) => Some(iv),
        Err(_) => None,
    }
}

/// The `x-auth` value for an IV and the ciphertext made with it: the
/// lower-case hex of the IV followed by that of the ciphertext.
pub fn x_auth_from_parts(iv: &[u8; 16], ciphertext: &[u8]) -> (header: String)
    ensures
        header@ == hex_lower(iv@) + hex_lower(ciphertext@),
{
    let mut out = String::new();
    push_hex(&mut out, iv.as_slice(), false);
    push_hex(&mut out, ciphertext, false);
    out
}

/// Whether `header` is an `x-auth` value for some 16-byte IV: the hex of the
/// IV, then the hex of the device ID encrypted under the update key with it.
pub open spec fn is_x_auth(header: Seq<char>) -> bool {
    exists|iv: Seq<u8>|
        iv.len() == 16 && header == hex_lower(iv) + hex_lower(
            #[trigger] aes256_cbc_pkcs7(UPDATE_AUTH_KEY@, iv, encode_utf8(DEVICE_ID@)),
        )
}

/// Generate the `x-auth` header value expected by the update endpoint:
/// the device ID encrypted with AES/CBC/PKCS#7 under the update key with a
/// random 16-byte IV, hex-encoded as `hex(iv) || hex(ciphertext)`.
/// `None` when no random IV can be drawn.
pub fn generate_x_auth() -> (header: Option<String>)
    ensures
        header matches Some(h) ==> is_x_auth(h@),
{
    let iv = match random_iv() {
        Some(iv) => iv,
        None => return None,
    };
    let ct = aes256_cbc_encrypt(&UPDATE_AUTH_KEY, &iv, DEVICE_ID.as_bytes());
    let h = x_auth_from_parts(&iv, ct.as_slice());
    assert(h@ == hex_lower(iv@) + hex_lower(aes256_cbc_pkcs7(UPDATE_AUTH_KEY@, iv@, encode_utf8(DEVICE_ID@))));
    Some(h)
}

} // verus!
