//! AES-256 on single blocks, from the `aes` crate, and electronic-codebook
//! application of a block function to a byte string.

use aes::cipher::generic_array::GenericArray;
use aes::cipher::{BlockDecrypt, BlockEncrypt, KeyInit};
use vstd::prelude::*;

use crate::blocks::{block_at, Block};

verus! {

/// What `aes::Aes256Enc` gives when it encrypts `block` under `key`.
pub uninterp spec fn aes256_encrypt_block(key: Seq<u8>, block: Seq<u8>) -> Seq<u8>;

/// What `aes::Aes256Dec` gives when it decrypts `block` under `key`.
pub uninterp spec fn aes256_decrypt_block(key: Seq<u8>, block: Seq<u8>) -> Seq<u8>;

/// Encrypts one block with `aes::Aes256Enc` (`KeyInit::new`, then
/// `BlockEncrypt::encrypt_block`). Trusted: the result is the named AES-256
/// encryption of `block` under `key`, and AES-256 decryption under the same
/// key gives `block` back (AES is a permutation of blocks for each key).
#[verifier::external_body]
pub(crate) fn aes256_encrypt(key: &[u8; 32], block: &Block) -> (out: Block)
    ensures
        out@ == aes256_encrypt_block(key@, block@),
        aes256_decrypt_block(key@, out@) == block@,
{
    let cipher = aes::Aes256Enc::new(GenericArray::from_slice(key));
    let mut buf = GenericArray::clone_from_slice(block);
    cipher.encrypt_block(&mut buf);
    buf.into()
}

/// Decrypts one block with `aes::Aes256Dec` (`KeyInit::new`, then
/// `BlockDecrypt::decrypt_block`). Trusted: the result is the named AES-256
/// decryption of `block` under `key`.
#[verifier::external_body]
pub(crate) fn aes256_decrypt(key: &[u8; 32], block: &Block) -> (out: Block)
    ensures
        out@ == aes256_decrypt_block(key@, block@),
{
    let cipher = aes::Aes256Dec::new(GenericArray::from_slice(key));
    let mut buf = GenericArray::clone_from_slice(block);
    cipher.decrypt_block(&mut buf);
    buf.into()
}

/// `f` applied to each 16-byte block of `data` separately (electronic codebook).
pub open spec fn ecb(f: spec_fn(Seq<u8>) -> Seq<u8>, data: Seq<u8>) -> Seq<u8> {
    Seq::new(data.len(), |i: int| f(block_at(data, i / 16))[i % 16])
}

/// AES-256 encryption of each block of `data` under `key`.
pub open spec fn ecb_encrypt(key: Seq<u8>, data: Seq<u8>) -> Seq<u8> {
    ecb(|b: Seq<u8>| aes256_encrypt_block(key, b), data)
}

/// AES-256 decryption of each block of `data` under `key`.
pub open spec fn ecb_decrypt(key: Seq<u8>, data: Seq<u8>) -> Seq<u8> {
    ecb(|b: Seq<u8>| aes256_decrypt_block(key, b), data)
}

/// Whether AES-256 decryption undoes encryption on every block of `data`,
/// with each ciphertext block 16 bytes long.
pub open spec fn blocks_invertible(key: Seq<u8>, data: Seq<u8>) -> bool {
    forall|j: int|
        0 <= j < data.len() / 16 ==> {
            &&& (#[trigger] aes256_encrypt_block(key, block_at(data, j))).len() == 16
            &&& aes256_decrypt_block(key, aes256_encrypt_block(key, block_at(data, j)))
                == block_at(data, j)
        }
}

proof fn lemma_block_of_ecb(f: spec_fn(Seq<u8>) -> Seq<u8>, data: Seq<u8>, j: int)
    requires
        data.len() % 16 == 0,
        0 <= j < data.len() / 16,
        f(block_at(data, j)).len() == 16,
    ensures
        block_at(ecb(f, data), j) == f(block_at(data, j)),
{
    let e = ecb(f, data);
    assert forall|t: int| 0 <= t < 16 implies #[trigger] block_at(e, j)[t] == f(block_at(data, j))[t] by {
        assert((16 * j + t) / 16 == j && (16 * j + t) % 16 == t);
    }
    assert(block_at(e, j) =~= f(block_at(data, j)));
}

/// Decrypting the blocks that encryption gave returns the plaintext blocks.
pub proof fn lemma_ecb_roundtrip(key: Seq<u8>, data: Seq<u8>)
    requires
        data.len() % 16 == 0,
        blocks_invertible(key, data),
    ensures
        ecb_decrypt(key, ecb_encrypt(key, data)) == data,
{
    let enc = |b: Seq<u8>| aes256_encrypt_block(key, b);
    let c = ecb_encrypt(key, data);
    let d = ecb_decrypt(key, c);
    assert forall|i: int| 0 <= i < data.len() implies #[trigger] d[i] == data[i] by {
        let j = i / 16;
        assert(aes256_encrypt_block(key, block_at(data, j)).len() == 16);
        lemma_block_of_ecb(enc, data, j);
        assert(block_at(data, j)[i % 16] == data[i]);
    }
    assert(d =~= data);
}

} // verus!
