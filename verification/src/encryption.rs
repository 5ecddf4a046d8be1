//! Encryption of messages and keys with AES-256 in electronic-codebook mode
//! over zero-padded blocks, and the Base64 text form used on the wire.

use vstd::prelude::*;
use vstd::string::StringSliceAdditionalSpecFns;
use vstd::utf8::{
    decode_utf8, encode_scalar, encode_utf8, encode_utf8_decode_utf8, encode_utf8_valid_utf8,
    has_width_1_encoding, is_scalar, valid_utf8,
};

use crate::blocks::{
    block_at, has_no_trailing_zero, is_split_of, joined, lemma_trim_identity, lemma_trim_zero_padded, lemma_zero_padded_len, merge_blocks,
    padding_len, to_blocks, trim_trailing_zeros, zero_padded, Block,
};
use crate::cipher::{
    aes256_decrypt, aes256_decrypt_block, aes256_encrypt, aes256_encrypt_block, ecb, ecb_decrypt,
    ecb_encrypt, lemma_ecb_roundtrip,
};
use crate::codec::{
    base64_decode, base64_decoding, base64_encode, base64_encoding, string_from_utf8,
};

verus! {

/// A 256-bit AES key.
pub type Key = [u8; 32];

/// The ciphertext of `data` under `key`: `data` padded with zero bytes to a
/// multiple of 16, each block encrypted with AES-256.
pub open spec fn encrypted(key: Seq<u8>, data: Seq<u8>) -> Seq<u8> {
    ecb_encrypt(key, zero_padded(data))
}

/// The plaintext that `decrypt_data` recovers from `data` under `key`: `data`
/// padded to whole blocks, each block decrypted with AES-256, and all trailing
/// zero bytes removed.
pub open spec fn decrypted(key: Seq<u8>, data: Seq<u8>) -> Seq<u8> {
    trim_trailing_zeros(ecb_decrypt(key, zero_padded(data)))
}

/// The text that `decrypt_base64_to_string` recovers from `text`: Base64
/// decoding, then decryption under `key`, then UTF-8 decoding; `None` where
/// the Base64 or the UTF-8 step fails.
pub open spec fn decrypted_text(text: Seq<char>, key: Seq<u8>) -> Option<Seq<char>> {
    match base64_decoding(text) {
        Some(bytes) => {
            let plain = decrypted(key, bytes);
            if valid_utf8(plain) {
                Some(decode_utf8(plain))
            } else {
                None
            }
        },
        None => None,
    }
}

/// The text that `encrypt_string_to_base64` produces.
pub open spec fn encrypted_text(text: Seq<char>, key: Seq<u8>) -> Seq<char> {
    base64_encoding(encrypted(key, encode_utf8(text)))
}

/// The key that `decrypt_key` recovers from the 32-byte `encrypted_key`
/// under `encryption_key`: both blocks decrypted with AES-256, nothing removed.
pub open spec fn decrypted_key(encryption_key: Seq<u8>, encrypted_key: Seq<u8>) -> Seq<u8> {
    ecb_decrypt(encryption_key, encrypted_key)
}

/// Whether a text does not end in the NUL character.
pub open spec fn ends_without_nul(text: Seq<char>) -> bool {
    text.len() == 0 || text.last() != '\0'
}

/// Encrypts `data` under `key`. The result is `data` padded with zero bytes to
/// whole 16-byte blocks, each block encrypted on its own with AES-256;
/// `decrypt_data` under the same key gives back `data` without its trailing
/// zero bytes.
pub fn encrypt_data(key: &Key, data: &[u8]) -> (res: Vec<u8>)
    requires
        data@.len() + 16 <= usize::MAX,
    ensures
        res@ == encrypted(key@, data@),
        res@.len() == zero_padded(data@).len(),
        decrypted(key@, res@) == trim_trailing_zeros(data@),
        has_no_trailing_zero(data@) ==> decrypted(key@, res@) == data@,
        ecb_decrypt(key@, res@) == zero_padded(data@),
{
    let blocks = to_blocks(data);
    let ghost padded = zero_padded(data@);
    proof {
        lemma_zero_padded_len(data@);
    }
    let mut out: Vec<Block> = Vec::new();
    let mut j: usize = 0;
    while j < blocks.len()
        invariant
            is_split_of(blocks@, data@),
            padded == zero_padded(data@),
            padded.len() == 16 * blocks@.len(),
            j <= blocks@.len(),
            out@.len() == j,
            forall|b: int|
                0 <= b < j ==> {
                    &&& #[trigger] out@[b]@ == aes256_encrypt_block(key@, blocks@[b]@)
                    &&& aes256_decrypt_block(key@, out@[b]@) == blocks@[b]@
                },
        decreases blocks@.len() - j,
    {
        let c = aes256_encrypt(key, &blocks[j]);
        out.push(c);
        j = j + 1;
    }
    let res = merge_blocks(&out, false);
    proof {
        let enc = |b: Seq<u8>| aes256_encrypt_block(key@, b);
        assert forall|i: int| 0 <= i < padded.len() implies #[trigger] res@[i] == ecb(
            enc,
            padded,
        )[i] by {
            let b = i / 16;
            assert(out@[b]@ == aes256_encrypt_block(key@, blocks@[b]@));
            assert(blocks@[b]@ == block_at(padded, b));
        }
        assert(res@ =~= encrypted(key@, data@));
        assert forall|b: int| 0 <= b < padded.len() / 16 implies {
            &&& (#[trigger] aes256_encrypt_block(key@, block_at(padded, b))).len() == 16
            &&& aes256_decrypt_block(key@, aes256_encrypt_block(key@, block_at(padded, b)))
                == block_at(padded, b)
        } by {
            assert(blocks@[b]@ == block_at(padded, b));
            assert(out@[b]@ == aes256_encrypt_block(key@, blocks@[b]@));
            assert(aes256_decrypt_block(key@, out@[b]@) == blocks@[b]@);
        }
        lemma_ecb_roundtrip(key@, padded);
        lemma_zero_padded_len(res@);
        lemma_trim_zero_padded(data@);
        if has_no_trailing_zero(data@) {
            lemma_trim_identity(data@);
        }
    }
    res
}

/// Encryption works block by block: when `a` fills whole 16-byte blocks, the
/// ciphertext of `a` followed by `b` is the ciphertext of `a` followed by the
/// ciphertext of `b` (zero padding only ever fills the last block).
pub proof fn lemma_encrypted_concat(key: Seq<u8>, a: Seq<u8>, b: Seq<u8>)
    requires
        a.len() % 16 == 0,
    ensures
        encrypted(key, a + b) == encrypted(key, a) + encrypted(key, b),
{
    let pb = zero_padded(b);
    lemma_zero_padded_len(a);
    lemma_zero_padded_len(b);
    assert(padding_len((a + b).len()) == padding_len(b.len()));
    assert(zero_padded(a + b) =~= a + pb);
    let f = |blk: Seq<u8>| aes256_encrypt_block(key, blk);
    let whole = a + pb;
    let lhs = ecb(f, whole);
    let rhs = ecb(f, a) + ecb(f, pb);
    assert forall|i: int| 0 <= i < lhs.len() implies #[trigger] lhs[i] == rhs[i] by {
        if i < a.len() {
            assert(16 * (i / 16) + 16 <= a.len());
            assert(block_at(whole, i / 16) =~= block_at(a, i / 16));
        } else {
            let k = i - a.len();
            assert(i / 16 == a.len() / 16 + k / 16 && i % 16 == k % 16);
            assert(16 * (k / 16) + 16 <= pb.len());
            assert(block_at(whole, i / 16) =~= block_at(pb, k / 16));
        }
    }
    assert(lhs =~= rhs);
}

/// Decrypts each block of `data`, padded with zero bytes to whole blocks,
/// with AES-256 under `key`.
fn decrypt_blocks(key: &Key, data: &[u8]) -> (out: Vec<Block>)
    requires
        data@.len() + 16 <= usize::MAX,
    ensures
        16 * out@.len() == zero_padded(data@).len(),
        joined(out@) == ecb_decrypt(key@, zero_padded(data@)),
{
    let blocks = to_blocks(data);
    let ghost padded = zero_padded(data@);
    proof {
        lemma_zero_padded_len(data@);
    }
    let mut out: Vec<Block> = Vec::new();
    let mut j: usize = 0;
    while j < blocks.len()
        invariant
            is_split_of(blocks@, data@),
            padded == zero_padded(data@),
            padded.len() == 16 * blocks@.len(),
            j <= blocks@.len(),
            out@.len() == j,
            forall|b: int|
                0 <= b < j ==> #[trigger] out@[b]@ == aes256_decrypt_block(key@, blocks@[b]@),
        decreases blocks@.len() - j,
    {
        let p = aes256_decrypt(key, &blocks[j]);
        out.push(p);
        j = j + 1;
    }
    proof {
        let dec = |b: Seq<u8>| aes256_decrypt_block(key@, b);
        assert forall|i: int| 0 <= i < padded.len() implies #[trigger] joined(out@)[i] == ecb(
            dec,
            padded,
        )[i] by {
            let b = i / 16;
            assert(out@[b]@ == aes256_decrypt_block(key@, blocks@[b]@));
            assert(blocks@[b]@ == block_at(padded, b));
        }
        assert(joined(out@) =~= ecb_decrypt(key@, padded));
    }
    out
}

/// Decrypts `data` under `key`: `data` is padded with zero bytes to whole
/// blocks, each block is decrypted with AES-256, and the trailing zero bytes of
/// the result are removed.
pub fn decrypt_data(key: &Key, data: &[u8]) -> (res: Vec<u8>)
    requires
        data@.len() + 16 <= usize::MAX,
    ensures
        res@ == decrypted(key@, data@),
{
    let out = decrypt_blocks(key, data);
    proof {
        lemma_zero_padded_len(data@);
    }
    merge_blocks(&out, true)
}

/// The last byte of the UTF-8 encoding of a character is zero exactly for NUL.
proof fn lemma_scalar_last_byte(c: char)
    ensures
        encode_scalar(c as u32).len() > 0,
        (encode_scalar(c as u32).last() == 0) <==> (c == '\0'),
{
    let v = c as u32;
    assert(is_scalar(v));
    if has_width_1_encoding(v) {
        assert(((v & 0x7F) as u8 == 0) <==> (v == 0)) by (bit_vector)
            requires
                v <= 0x7F,
        ;
    } else {
        assert((0x80u8 | (v & 0x3F) as u8) != 0) by (bit_vector);
    }
}

/// A text ends without NUL exactly when its UTF-8 encoding ends in a byte other than zero.
pub proof fn lemma_utf8_trailing_zero(text: Seq<char>)
    ensures
        ends_without_nul(text) <==> has_no_trailing_zero(encode_utf8(text)),
        text.len() > 0 ==> encode_utf8(text).len() > 0,
    decreases text.len(),
{
    if text.len() > 0 {
        let rest = text.drop_first();
        lemma_scalar_last_byte(text[0]);
        lemma_utf8_trailing_zero(rest);
        let head = encode_scalar(text[0] as u32);
        let bytes = encode_utf8(text);
        assert(bytes == head + encode_utf8(rest));
        if rest.len() == 0 {
            assert(encode_utf8(rest) =~= Seq::<u8>::empty());
            assert(bytes =~= head);
            assert(text.last() == text[0]);
        } else {
            assert(bytes.last() == encode_utf8(rest).last());
            assert(text.last() == rest.last());
        }
    }
}

/// Fills a key with bytes from `rand::thread_rng()` (`rand::Rng::fill`).
/// Nothing is stated of the bytes: they come from a random number generator.
#[verifier::external_body]
fn random_key_bytes(key: &mut Key) {
    rand::Rng::fill(&mut rand::thread_rng(), key);
}

/// Generates a fresh random 256-bit key.
pub fn generate_aes_key() -> (res: Key) {
    let mut key: Key = [0u8; 32];
    random_key_bytes(&mut key);
    key
}

/// Copies the 32 bytes of `raw` into a key.
pub fn into_key(raw: &[u8]) -> (res: Key)
    requires
        raw@.len() == 32,
    ensures
        res@ == raw@,
{
    let mut out: Key = [0u8; 32];
    let mut i: usize = 0;
    while i < 32
        invariant
            raw@.len() == 32,
            i <= 32,
            forall|t: int| 0 <= t < i ==> out@[t] == raw@[t],
        decreases 32 - i,
    {
        out[i] = raw[i];
        i = i + 1;
    }
    assert(out@ =~= raw@);
    out
}

/// Encrypts `key` under `encryption_key`. The 32 key bytes fill exactly two
/// blocks, so the ciphertext is again 32 bytes long, and `decrypt_key` under
/// the same encryption key gives `key` back.
pub fn encrypt_key(key: &Key, encryption_key: &Key) -> (res: Key)
    ensures
        res@ == encrypted(encryption_key@, key@),
        decrypted_key(encryption_key@, res@) == key@,
        decrypted(encryption_key@, res@) == trim_trailing_zeros(key@),
{
    proof {
        lemma_zero_padded_len(key@);
    }
    let encrypted_key = encrypt_data(encryption_key, key);
    proof {
        lemma_zero_padded_len(encrypted_key@);
    }
    into_key(&encrypted_key)
}

/// Decrypts an encrypted key under `encryption_key`: both of its blocks are
/// decrypted and all 32 bytes kept.
pub fn decrypt_key(encrypted_key: &Key, encryption_key: &Key) -> (res: Key)
    ensures
        res@ == decrypted_key(encryption_key@, encrypted_key@),
{
    let out = decrypt_blocks(encryption_key, encrypted_key);
    proof {
        lemma_zero_padded_len(encrypted_key@);
    }
    let bytes = merge_blocks(&out, false);
    into_key(&bytes)
}

/// Encrypts the UTF-8 bytes of `string` under `encryption_key` and encodes the
/// ciphertext in Base64 without padding. `decrypt_base64_to_string` under the
/// same key gives `string` back whenever it does not end in NUL.
pub fn encrypt_string_to_base64(string: &str, encryption_key: &Key) -> (res: String)
    requires
        string.spec_bytes().len() + 16 <= usize::MAX / 2,
    ensures
        res@ == encrypted_text(string@, encryption_key@),
        ends_without_nul(string@) ==> decrypted_text(res@, encryption_key@) == Some(string@),
{
    let bytes = string.as_bytes();
    let data = encrypt_data(encryption_key, bytes);
    let res = base64_encode(data.as_slice());
    proof {
        let text = string@;
        lemma_utf8_trailing_zero(text);
        if ends_without_nul(text) {
            encode_utf8_valid_utf8(text);
            encode_utf8_decode_utf8(text);
            assert(decrypted(encryption_key@, data@) == encode_utf8(text));
        }
    }
    res
}

/// Decodes Base64 `encrypted_base64`, decrypts it under `encryption_key` and
/// reads the result as UTF-8 text.
pub fn decrypt_base64_to_string(encrypted_base64: &str, encryption_key: &Key) -> (res: String)
    requires
        decrypted_text(encrypted_base64@, encryption_key@) is Some,
    ensures
        decrypted_text(encrypted_base64@, encryption_key@) == Some(res@),
{
    let text_len = encrypted_base64.as_bytes().len();
    match base64_decode(encrypted_base64) {
        Some(data) => {
            assert(data@.len() + 16 <= usize::MAX) by {
                assert(text_len == encrypted_base64.spec_bytes().len());
            }
            let plain = decrypt_data(encryption_key, data.as_slice());
            match string_from_utf8(plain) {
                Some(text) => text,
                None => String::new(),
            }
        },
        None => String::new(),
    }
}

/// Why an encrypted text could not be read.
#[derive(Debug, Clone, Copy, PartialEq, Eq, Structural)]
pub enum DecryptTextError {
    /// The text is not Base64 without padding.
    InvalidBase64,
    /// The decrypted bytes are not UTF-8.
    InvalidUtf8,
}

/// Decodes, decrypts and reads `encrypted_base64` as `decrypt_base64_to_string`
/// does, or says which step failed.
pub fn try_decrypt_base64_to_string(encrypted_base64: &str, encryption_key: &Key) -> (res: Result<
    String,
    DecryptTextError,
>)
    ensures
        match res {
            Ok(text) => decrypted_text(encrypted_base64@, encryption_key@) == Some(text@),
            Err(DecryptTextError::InvalidBase64) => base64_decoding(encrypted_base64@) is None,
            Err(DecryptTextError::InvalidUtf8) => {
                &&& base64_decoding(encrypted_base64@) is Some
                &&& decrypted_text(encrypted_base64@, encryption_key@) is None
            },
        },
{
    let text_len = encrypted_base64.as_bytes().len();
    match base64_decode(encrypted_base64) {
        Some(data) => {
            assert(data@.len() + 16 <= usize::MAX) by {
                assert(text_len == encrypted_base64.spec_bytes().len());
            }
            let plain = decrypt_data(encryption_key, data.as_slice());
            match string_from_utf8(plain) {
                Some(_) => Ok(decrypt_base64_to_string(encrypted_base64, encryption_key)),
                None => Err(DecryptTextError::InvalidUtf8),
            }
        },
        None => Err(DecryptTextError::InvalidBase64),
    }
}

} // verus!
