//! What the server does with the stored chat keys and messages when it starts
//! with a new deployment key: it re-encrypts the chat keys under the new key,
//! or, for a database that was never encrypted, gives every chat a fresh key
//! and encrypts every message with the key of its chat.

use vstd::prelude::*;
use vstd::utf8::encode_utf8;

use crate::codec::{base64_decode, base64_decoding, base64_encode, base64_encoding};
use crate::encryption::{
    decrypt_key, decrypted_key, encrypt_key, encrypt_string_to_base64, encrypted, encrypted_text,
    ends_without_nul, decrypted_text, generate_aes_key, into_key, Key,
};

verus! {

/// What the server does at start-up.
#[derive(Clone, Copy, Debug)]
pub enum DeployPlan {
    /// Re-encrypt the chat keys, stored under the previous deployment key, under the new one.
    ReencryptKeys(Key),
    /// Ask the operator, then give every chat a fresh key and encrypt all messages.
    EncryptEverything,
}

/// Chooses what to do at start-up: with the previous deployment key the chat
/// keys are re-encrypted; without one the database is taken to be
/// unencrypted.
pub fn deploy(old_key: Option<Key>) -> (res: DeployPlan)
    ensures
        match old_key {
            Some(k) => res == DeployPlan::ReencryptKeys(k),
            None => res == DeployPlan::EncryptEverything,
        },
{
    match old_key {
        Some(k) => DeployPlan::ReencryptKeys(k),
        None => DeployPlan::EncryptEverything,
    }
}

/// Why a stored chat key cannot be read.
#[derive(Clone, Copy, Debug, PartialEq, Eq, Structural)]
pub enum StoredKeyError {
    /// The stored text is not Base64 without padding.
    InvalidBase64,
    /// The decoded ciphertext is not 32 bytes long.
    WrongLength,
}

/// The ciphertext of the chat key that `stored` holds.
pub open spec fn stored_ciphertext(stored: Seq<char>) -> Seq<u8> {
    base64_decoding(stored).unwrap()
}

/// Whether the chat key stored as `stored` can be read under `key`.
pub open spec fn stored_key_readable(stored: Seq<char>, key: Seq<u8>) -> bool {
    &&& base64_decoding(stored) is Some
    &&& stored_ciphertext(stored).len() == 32
}

/// The chat key stored as `stored`, read under `key`.
pub open spec fn stored_key(stored: Seq<char>, key: Seq<u8>) -> Seq<u8> {
    decrypted_key(key, stored_ciphertext(stored))
}

/// Which step of reading a stored chat key fails, if any.
pub open spec fn stored_key_error(stored: Seq<char>, key: Seq<u8>) -> Option<StoredKeyError> {
    if base64_decoding(stored) is None {
        Some(StoredKeyError::InvalidBase64)
    } else if stored_ciphertext(stored).len() != 32 {
        Some(StoredKeyError::WrongLength)
    } else {
        None
    }
}

/// Reads the chat key stored as Base64 text under `key`.
pub fn read_stored_key(stored: &str, key: &Key) -> (res: Result<Key, StoredKeyError>)
    ensures
        match stored_key_error(stored@, key@) {
            Some(e) => res == Err::<Key, StoredKeyError>(e),
            None => res matches Ok(k) && k@ == stored_key(stored@, key@),
        },
{
    match base64_decode(stored) {
        None => Err(StoredKeyError::InvalidBase64),
        Some(ciphertext) => {
            if ciphertext.len() != 32 {
                return Err(StoredKeyError::WrongLength);
            }
            let encrypted_key = into_key(ciphertext.as_slice());
            Ok(decrypt_key(&encrypted_key, key))
        },
    }
}

/// Re-encrypts the chat key stored as Base64 text under `old_key` so that it
/// is stored under `new_key`. The result, read under `new_key`, is the key
/// that the stored text held under `old_key`.
pub fn reencrypt_chat_key(stored: &str, old_key: &Key, new_key: &Key) -> (res: Result<String, StoredKeyError>)
    ensures
        match stored_key_error(stored@, old_key@) {
            Some(e) => res == Err::<String, StoredKeyError>(e),
            None => res matches Ok(text) && {
                &&& text@ == base64_encoding(encrypted(new_key@, stored_key(stored@, old_key@)))
                &&& stored_key_readable(text@, new_key@)
                &&& stored_key(text@, new_key@) == stored_key(stored@, old_key@)
            },
        },
{
    match read_stored_key(stored, old_key) {
        Err(e) => Err(e),
        Ok(chat_key) => {
            let encrypted_key = encrypt_key(&chat_key, new_key);
            let text = base64_encode(&encrypted_key);
            Ok(text)
        },
    }
}

/// A fresh chat key, encrypted under `encryption_key` and encoded in Base64.
/// Read back under `encryption_key` it gives that 32-byte key.
pub fn new_chat_key(encryption_key: &Key) -> (res: String)
    ensures
        exists|k: Seq<u8>| #![trigger encrypted(encryption_key@, k)] {
            &&& k.len() == 32
            &&& res@ == base64_encoding(encrypted(encryption_key@, k))
            &&& stored_ciphertext(res@) == encrypted(encryption_key@, k)
            &&& stored_key_readable(res@, encryption_key@)
            &&& stored_key(res@, encryption_key@) == k
        },
{
    let chat_key = generate_aes_key();
    let encrypted_key = encrypt_key(&chat_key, encryption_key);
    base64_encode(&encrypted_key)
}


/// Gives every chat in `ids` a fresh key, encrypted under `encryption_key`
/// and encoded in Base64, in the order of `ids`.
pub fn generate_keys(ids: &Vec<i32>, encryption_key: &Key) -> (res: Vec<(i32, String)>)
    ensures
        res@.len() == ids@.len(),
        forall|i: int|
            0 <= i < ids@.len() ==> (#[trigger] res@[i]).0 == ids@[i] && exists|k: Seq<u8>|
                #![trigger encrypted(encryption_key@, k)]
                k.len() == 32 && res@[i].1@ == base64_encoding(encrypted(encryption_key@, k)),
{
    let mut res: Vec<(i32, String)> = Vec::new();
    let mut i: usize = 0;
    while i < ids.len()
        invariant
            i <= ids@.len(),
            res@.len() == i,
            forall|j: int|
                0 <= j < i ==> (#[trigger] res@[j]).0 == ids@[j] && exists|k: Seq<u8>|
                    #![trigger encrypted(encryption_key@, k)]
                    k.len() == 32 && res@[j].1@ == base64_encoding(encrypted(encryption_key@, k)),
        decreases ids@.len() - i,
    {
        let text = new_chat_key(encryption_key);
        res.push((ids[i], text));
        i = i + 1;
    }
    res
}

/// The index of the last entry for chat `chat`, if any.
pub open spec fn last_entry_for(keys: Seq<(i32, Key)>, chat: i32) -> Option<int>
    decreases keys.len(),
{
    if keys.len() == 0 {
        None
    } else if keys.last().0 == chat {
        Some(keys.len() - 1)
    } else {
        last_entry_for(keys.drop_last(), chat)
    }
}

proof fn lemma_last_entry_bounds(keys: Seq<(i32, Key)>, chat: i32)
    ensures
        last_entry_for(keys, chat) matches Some(i) ==> 0 <= i < keys.len() && keys[i].0 == chat,
    decreases keys.len(),
{
    if keys.len() > 0 && keys.last().0 != chat {
        lemma_last_entry_bounds(keys.drop_last(), chat);
    }
}

/// The keys as a map from chat id to key, built by inserting the entries one
/// after the other, so that a later entry for a chat replaces an earlier one.
pub open spec fn collected_keys(keys: Seq<(i32, Key)>) -> Map<i32, Key>
    decreases keys.len(),
{
    if keys.len() == 0 {
        Map::empty()
    } else {
        collected_keys(keys.drop_last()).insert(keys.last().0, keys.last().1)
    }
}

/// The lookup of a chat's key finds an entry exactly when some entry is for
/// that chat, and then the last such entry: its key is the one that a map
/// filled with the entries in order holds for the chat.
pub proof fn lemma_key_lookup(keys: Seq<(i32, Key)>, chat: i32)
    ensures
        (exists|i: int| 0 <= i < keys.len() && keys[i].0 == chat) <==> last_entry_for(keys, chat) is Some,
        last_entry_for(keys, chat) matches Some(i) ==> {
            &&& 0 <= i < keys.len()
            &&& keys[i].0 == chat
            &&& forall|j: int| i < j < keys.len() ==> keys[j].0 != chat
        },
        collected_keys(keys).dom().contains(chat) <==> last_entry_for(keys, chat) is Some,
        last_entry_for(keys, chat) matches Some(i) ==> collected_keys(keys)[chat] == keys[i].1,
    decreases keys.len(),
{
    if keys.len() > 0 {
        let rest = keys.drop_last();
        lemma_key_lookup(rest, chat);
        if keys.last().0 != chat {
            if exists|i: int| 0 <= i < keys.len() && keys[i].0 == chat {
                let i = choose|i: int| 0 <= i < keys.len() && keys[i].0 == chat;
                assert(rest[i].0 == chat);
            }
            if last_entry_for(rest, chat) is Some {
                let i = last_entry_for(rest, chat)->0;
                assert(keys[i] == rest[i]);
                assert forall|j: int| i < j < keys.len() implies keys[j].0 != chat by {
                    if j < rest.len() {
                        assert(keys[j] == rest[j]);
                    }
                }
            }
        } else {
            assert(keys[keys.len() - 1].0 == chat);
        }
    }
}

/// The key of chat `chat`: that of its last entry, as when the entries are
/// collected into a map one after the other.
pub fn key_for_chat(keys: &Vec<(i32, Key)>, chat: i32) -> (res: Option<Key>)
    ensures
        match last_entry_for(keys@, chat) {
            Some(i) => res == Some(keys@[i].1),
            None => res is None,
        },
{
    let mut k: usize = keys.len();
    assert(keys@.take(k as int) =~= keys@);
    while k > 0
        invariant
            k <= keys@.len(),
            last_entry_for(keys@, chat) == last_entry_for(keys@.take(k as int), chat),
        decreases k,
    {
        let ghost prefix = keys@.take(k as int);
        assert(prefix.drop_last() =~= keys@.take(k - 1));
        if keys[k - 1].0 == chat {
            proof {
                lemma_last_entry_bounds(keys@, chat);
            }
            return Some(keys[k - 1].1);
        }
        k = k - 1;
    }
    None
}

/// Reads every stored chat key (rows of Base64 text and chat id) under
/// `encryption_key`, in order; the first row that cannot be read stops it.
pub fn chat_keys(rows: &Vec<(String, i32)>, encryption_key: &Key) -> (res: Result<Vec<(i32, Key)>, StoredKeyError>)
    ensures
        match res {
            Ok(keys) => {
                &&& keys@.len() == rows@.len()
                &&& forall|i: int|
                    0 <= i < rows@.len() ==> (#[trigger] keys@[i]).0 == rows@[i].1 && keys@[i].1@
                        == stored_key(rows@[i].0@, encryption_key@) && stored_key_error(
                        rows@[i].0@,
                        encryption_key@,
                    ) is None
            },
            Err(e) => exists|i: int|
                0 <= i < rows@.len() && stored_key_error(#[trigger] rows@[i].0@, encryption_key@)
                    == Some(e) && forall|j: int|
                    0 <= j < i ==> stored_key_error(#[trigger] rows@[j].0@, encryption_key@) is None,
        },
{
    let mut keys: Vec<(i32, Key)> = Vec::new();
    let mut i: usize = 0;
    while i < rows.len()
        invariant
            i <= rows@.len(),
            keys@.len() == i,
            forall|j: int|
                0 <= j < i ==> (#[trigger] keys@[j]).0 == rows@[j].1 && keys@[j].1@ == stored_key(
                    rows@[j].0@,
                    encryption_key@,
                ) && stored_key_error(rows@[j].0@, encryption_key@) is None,
        decreases rows@.len() - i,
    {
        match read_stored_key(rows[i].0.as_str(), encryption_key) {
            Ok(k) => {
                assert(stored_key_error(rows@[i as int].0@, encryption_key@) is None);
                keys.push((rows[i].1, k));
                assert(keys@[i as int].1@ == stored_key(rows@[i as int].0@, encryption_key@));
            },
            Err(e) => {
                assert(stored_key_error(rows@[i as int].0@, encryption_key@) == Some(e));
                assert forall|j: int| 0 <= j < i implies stored_key_error(
                    #[trigger] rows@[j].0@,
                    encryption_key@,
                ) is None by {
                    assert(keys@[j].0 == rows@[j].1);
                }
                return Err(e);
            },
        }
        i = i + 1;
    }
    Ok(keys)
}

/// Encrypts the text of a stored message under the key of its chat and
/// encodes it in Base64; read back under that key it gives the text, unless
/// the text ends in NUL.
pub fn encrypt_message(text: &str, chat_key: &Key) -> (res: String)
    requires
        encode_utf8(text@).len() + 16 <= usize::MAX / 2,
    ensures
        res@ == encrypted_text(text@, chat_key@),
        ends_without_nul(text@) ==> decrypted_text(res@, chat_key@) == Some(text@),
{
    encrypt_string_to_base64(text, chat_key)
}

} // verus!
