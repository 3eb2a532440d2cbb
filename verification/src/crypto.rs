//! Encryption of the streams: AES-128 in GCM and CBC mode.
use aes::cipher::{Array, BlockModeEncrypt, KeyIvInit};
use aes_gcm::aead::{Aead, KeyInit};
use aes_gcm::{Aes128Gcm, Key, Nonce};
use inout::block_padding::Pkcs7;
use vstd::prelude::*;

verus! {

/// Bytes of a GCM tag.
pub const TAG_LEN: usize = 16;

/// The longest plaintext that GCM takes.
pub const GCM_MAX: u64 = 0x10_0000_0000;

/// The error of the AEAD ciphers, which says no more than that they failed.
#[verifier::external_type_specification]
#[verifier::external_body]
pub struct ExAeadError(aes_gcm::Error);

/// The error of a padded encryption whose buffer is too small.
#[verifier::external_type_specification]
#[verifier::external_body]
pub struct ExPadError(inout::PadError);

/// What AES-128-GCM makes of a plaintext, without associated data: the
/// ciphertext and behind it the tag.
pub uninterp spec fn gcm_sealed(plaintext: Seq<u8>, key: Seq<u8>, iv: Seq<u8>) -> Seq<u8>;

/// What AES-128-GCM makes of a ciphertext with its tag, without associated
/// data: the plaintext, or nothing where the tag does not fit.
pub uninterp spec fn gcm_opened(payload: Seq<u8>, key: Seq<u8>, iv: Seq<u8>) -> Option<Seq<u8>>;

/// What AES-128-CBC makes of a message that is padded by PKCS #7.
pub uninterp spec fn cbc_sealed(message: Seq<u8>, key: Seq<u8>, iv: Seq<u8>) -> Seq<u8>;

/// `aes_gcm::Aes128Gcm::encrypt` (`Aead`), with a key and a nonce of the
/// lengths that it takes. It fails on more than 2^36 bytes only; else it gives
/// the ciphertext, as long as the plaintext, and behind it the 16 bytes of the
/// tag, and `decrypt` under the same key and nonce gives the plaintext back.
#[verifier::external_body]
fn gcm_encrypt(plaintext: &[u8], key: &[u8], iv: &[u8]) -> (r: Result<Vec<u8>, aes_gcm::Error>)
    requires
        key@.len() == 16,
        iv@.len() == 12,
        plaintext@.len() + TAG_LEN <= isize::MAX,
    ensures
        r is Ok <==> plaintext@.len() <= GCM_MAX,
        r matches Ok(sealed) ==> {
            &&& sealed@ == gcm_sealed(plaintext@, key@, iv@)
            &&& sealed@.len() == plaintext@.len() + TAG_LEN
            &&& gcm_opened(sealed@, key@, iv@) == Some(plaintext@)
        },
{
    let cipher = Aes128Gcm::new(Key::<Aes128Gcm>::from_slice(key));
    cipher.encrypt(Nonce::from_slice(iv), plaintext)
}

/// `aes_gcm::Aes128Gcm::decrypt` (`Aead`), with a key and a nonce of the
/// lengths that it takes. It fails where the tag does not fit, so on anything
/// shorter than a tag; else it gives the plaintext, shorter by the tag.
#[verifier::external_body]
fn gcm_decrypt(payload: &[u8], key: &[u8], iv: &[u8]) -> (r: Result<Vec<u8>, aes_gcm::Error>)
    requires
        key@.len() == 16,
        iv@.len() == 12,
    ensures
        match r {
            Ok(plaintext) => {
                &&& gcm_opened(payload@, key@, iv@) == Some(plaintext@)
                &&& payload@.len() == plaintext@.len() + TAG_LEN
            },
            Err(_) => gcm_opened(payload@, key@, iv@) is None,
        },
{
    let cipher = Aes128Gcm::new(Key::<Aes128Gcm>::from_slice(key));
    cipher.decrypt(Nonce::from_slice(iv), payload)
}

/// `cbc::Encryptor::<aes::Aes128>::encrypt_padded` (`BlockModeEncrypt`) with
/// PKCS #7 padding, on the first `len` bytes of `buffer`. It fails where the
/// whole blocks of the buffer do not hold the message and its padding, of 1 to
/// 16 bytes; else it gives the ciphertext, in whole blocks. What it leaves in
/// the buffer is not stated.
#[verifier::external_body]
fn cbc_encrypt_padded(buffer: &mut Vec<u8>, len: usize, key: &[u8], iv: &[u8]) -> (r: Result<
    Vec<u8>,
    inout::PadError,
>)
    requires
        len <= old(buffer)@.len(),
        key@.len() == 16,
        iv@.len() == 16,
    ensures
        r is Ok <==> old(buffer)@.len() / 16 > len as nat / 16,
        r matches Ok(sealed) ==> {
            &&& sealed@ == cbc_sealed(old(buffer)@.take(len as int), key@, iv@)
            &&& sealed@.len() == (len as nat / 16 + 1) * 16
        },
{
    let key: &Array<u8, _> = key.try_into().unwrap();
    let iv: &Array<u8, _> = iv.try_into().unwrap();
    let cipher = cbc::Encryptor::<aes::Aes128>::new(key, iv);
    cipher.encrypt_padded::<Pkcs7>(buffer, len).map(|sealed| sealed.to_vec())
}

/// A GCM cipher failed; it says no more.
#[derive(Clone, Copy, Debug, PartialEq, Eq, Structural)]
pub struct GcmError;

/// Encrypts `plaintext` and puts the tag into `tag`. What comes back is as
/// long as the plaintext; with the tag it decrypts to the plaintext. Fails on
/// more than [`GCM_MAX`] bytes only, and leaves the tag then.
pub fn encrypt(plaintext: &[u8], key: &[u8], iv: &[u8], tag: &mut [u8]) -> (r: Result<
    Vec<u8>,
    GcmError,
>)
    requires
        key@.len() == 16,
        iv@.len() == 12,
        old(tag)@.len() == TAG_LEN,
        plaintext@.len() + TAG_LEN <= isize::MAX,
    ensures
        r is Ok <==> plaintext@.len() <= GCM_MAX,
        final(tag)@.len() == TAG_LEN,
        match r {
            Ok(ciphertext) => {
                &&& ciphertext@ + final(tag)@ == gcm_sealed(plaintext@, key@, iv@)
                &&& ciphertext@.len() == plaintext@.len()
                &&& gcm_opened(ciphertext@ + final(tag)@, key@, iv@) == Some(plaintext@)
            },
            Err(_) => final(tag)@ == old(tag)@,
        },
{
    let mut sealed = match gcm_encrypt(plaintext, key, iv) {
        Ok(sealed) => sealed,
        Err(_) => return Err(GcmError),
    };
    let ghost whole = sealed@;
    let len: usize = sealed.len() - TAG_LEN;
    let mut i: usize = 0;
    while i < TAG_LEN
        invariant
            i <= TAG_LEN,
            tag@.len() == TAG_LEN,
            sealed@.len() == len + TAG_LEN,
            tag@.take(i as int) == sealed@.subrange(len as int, len + i),
        decreases TAG_LEN - i,
    {
        let ghost before = tag@;
        tag[i] = sealed[sealed.len() - TAG_LEN + i];
        i = i + 1;
        proof {
            assert(tag@ == before.update(i - 1, sealed@[len + i - 1]));
            assert(tag@.take(i as int) == before.take(i - 1).push(sealed@[len + i - 1]));
            assert(sealed@.subrange(len as int, len + i) == sealed@.subrange(
                len as int,
                len + i - 1,
            ).push(sealed@[len + i - 1]));
        }
    }
    assert(tag@.take(TAG_LEN as int) == tag@);
    sealed.truncate(len);
    assert(sealed@ + tag@ == whole);
    Ok(sealed)
}

/// Decrypts `ciphertext` with its `tag`; fails where the tag does not fit.
pub fn decrypt(ciphertext: &[u8], key: &[u8], iv: &[u8], tag: &[u8]) -> (r: Result<
    Vec<u8>,
    GcmError,
>)
    requires
        key@.len() == 16,
        iv@.len() == 12,
        ciphertext@.len() + tag@.len() <= isize::MAX,
    ensures
        match r {
            Ok(plaintext) => gcm_opened(ciphertext@ + tag@, key@, iv@) == Some(plaintext@),
            Err(_) => gcm_opened(ciphertext@ + tag@, key@, iv@) is None,
        },
{
    let mut payload: Vec<u8> = Vec::with_capacity(ciphertext.len() + tag.len());
    payload.extend_from_slice(ciphertext);
    payload.extend_from_slice(tag);
    assert(payload@ == ciphertext@ + tag@);
    match gcm_decrypt(payload.as_slice(), key, iv) {
        Ok(plaintext) => Ok(plaintext),
        Err(_) => Err(GcmError),
    }
}

/// Encrypts `data`, padded by PKCS #7.
pub fn encrypt_cbc(data: &[u8], key: &[u8], iv: &[u8]) -> (r: Result<Vec<u8>, String>)
    requires
        data@.len() + 16 <= isize::MAX,
    ensures
        match r {
            Ok(ciphertext) => {
                &&& key@.len() == 16
                &&& iv@.len() == 16
                &&& ciphertext@ == cbc_sealed(data@, key@, iv@)
                &&& ciphertext@.len() == (data@.len() / 16 + 1) * 16
            },
            Err(e) => if key@.len() != 16 {
                e@ == "Invalid CBC key length"@
            } else {
                iv@.len() != 16 && e@ == "Invalid CBC IV length"@
            },
        },
{
    if key.len() != 16 {
        return Err("Invalid CBC key length".to_owned());
    }
    if iv.len() != 16 {
        return Err("Invalid CBC IV length".to_owned());
    }
    let pad_len: usize = 16 - data.len() % 16;
    let mut buffer: Vec<u8> = Vec::with_capacity(data.len() + pad_len);
    buffer.extend_from_slice(data);
    buffer.resize(data.len() + pad_len, 0);
    assert(buffer@.take(data@.len() as int) == data@);
    match cbc_encrypt_padded(&mut buffer, data.len(), key, iv) {
        Ok(ciphertext) => Ok(ciphertext),
        Err(_) => Err("Buffer too small for CBC encryption".to_owned()),
    }
}

} // verus!
