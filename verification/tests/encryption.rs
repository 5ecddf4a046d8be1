use messenger::encryption::{
    decrypt_base64_to_string, decrypt_data, decrypt_key, encrypt_data, encrypt_key,
    encrypt_string_to_base64, generate_aes_key, into_key, try_decrypt_base64_to_string,
    DecryptTextError, Key,
};

fn counting_key() -> Key {
    let mut k = [0u8; 32];
    for (i, b) in k.iter_mut().enumerate() {
        *b = i as u8;
    }
    k
}

fn hex(s: &str) -> Vec<u8> {
    (0..s.len())
        .step_by(2)
        .map(|i| u8::from_str_radix(&s[i..i + 2], 16).unwrap())
        .collect()
}

#[test]
fn test_encrypt() {
    let key = generate_aes_key();
    let data = "Hello world!";

    let encrypted_data = encrypt_data(&key, data.as_bytes());
    assert_ne!(encrypted_data.len(), 0);
}

#[test]
fn test_decrypt() {
    let key = generate_aes_key();
    let data = "Hello world!";

    let encrypted_data = encrypt_data(&key, data.as_bytes());
    assert_ne!(encrypted_data.len(), 0);
    println!("Encrypted message length: {}", encrypted_data.len());

    let decrypted = String::from_utf8(decrypt_data(&key, &encrypted_data)).unwrap();
    assert_eq!(data, decrypted);
}

fn long_text() -> String {
    let mut text = String::new();
    for i in 0..240 {
        text.push_str(&format!(
            "    let line_{i} = self.messaging_data.chats.iter().map(|t| t.chat_name.clone()); // {i}\n"
        ));
    }
    text
}

#[test]
fn test_encrypt_decrypt_long() {
    let data = long_text();
    let key = generate_aes_key();

    let encrypted_msg = encrypt_data(&key, data.as_bytes());
    assert_ne!(encrypted_msg.len(), 0);
    println!("Encrypted message length: {}", encrypted_msg.len());

    let decrypted = String::from_utf8(decrypt_data(&key, &encrypted_msg)).unwrap();
    assert_eq!(data, decrypted);
}

#[test]
fn test_encrypt_decrypt_key() {
    let key_a = generate_aes_key();
    let key_b = generate_aes_key();

    let encrypted_key = encrypt_key(&key_a, &key_b);
    let decrypted_key = decrypt_key(&encrypted_key, &key_b);

    assert_eq!(key_a, decrypted_key);
}

#[test]
fn test_base64_encryption_decryption() {
    let data = "Hello world!";
    let key = generate_aes_key();

    let encrypted = encrypt_string_to_base64(data, &key);
    let decrypted = decrypt_base64_to_string(&encrypted, &key);

    assert_eq!(data, decrypted);
}

#[test]
fn aes_block_known_answer() {
    let key = counting_key();
    let plain = hex("00112233445566778899aabbccddeeff");
    let cipher = encrypt_data(&key, &plain);
    assert_eq!(cipher, hex("8ea2b7ca516745bfeafc49904b496089"));
    assert_eq!(decrypt_data(&key, &cipher), plain);
}

#[test]
fn short_text_is_zero_padded_to_one_block() {
    let key = counting_key();
    let cipher = encrypt_data(&key, b"Hello world!");
    assert_eq!(cipher, hex("10c4a76cc16c735d4e7c8cc490ae2887"));
    assert_eq!(decrypt_data(&key, &cipher), b"Hello world!".to_vec());
}

#[test]
fn empty_data_encrypts_to_nothing() {
    let key = counting_key();
    assert_eq!(encrypt_data(&key, b""), Vec::<u8>::new());
    assert_eq!(decrypt_data(&key, b""), Vec::<u8>::new());
}

#[test]
fn ciphertext_length_is_whole_blocks() {
    let key = counting_key();
    assert_eq!(encrypt_data(&key, &[1u8; 16]).len(), 16);
    assert_eq!(encrypt_data(&key, &[1u8; 17]).len(), 32);
    assert_eq!(encrypt_data(&key, &[1u8; 31]).len(), 32);
    assert_eq!(encrypt_data(&key, &[1u8; 33]).len(), 48);
}

#[test]
fn trailing_zero_bytes_are_lost() {
    let key = counting_key();
    let cipher = encrypt_data(&key, &[5, 0, 0]);
    assert_eq!(decrypt_data(&key, &cipher), vec![5]);
    let cipher = encrypt_data(&key, &[0; 20]);
    assert_eq!(decrypt_data(&key, &cipher), Vec::<u8>::new());
}

#[test]
fn wrong_key_does_not_decrypt() {
    let key = counting_key();
    let other = [9u8; 32];
    let cipher = encrypt_data(&key, b"Hello world!");
    assert_ne!(decrypt_data(&other, &cipher), b"Hello world!".to_vec());
}

#[test]
fn into_key_copies_bytes() {
    let raw: Vec<u8> = (100..132).collect();
    let key = into_key(&raw);
    assert_eq!(key.to_vec(), raw);
}

#[test]
fn chat_key_known_answer() {
    let key = counting_key();
    let chat_key = [7u8; 32];
    let encrypted = encrypt_key(&chat_key, &key);
    assert_eq!(
        encrypted.to_vec(),
        hex("07cee8643941d102b9dc60117574037207cee8643941d102b9dc601175740372")
    );
    assert_eq!(decrypt_key(&encrypted, &key), chat_key);
}

#[test]
fn keys_ending_in_zero_are_read_back() {
    let key = counting_key();
    let mut chat_key = [7u8; 32];
    chat_key[31] = 0;
    let encrypted = encrypt_key(&chat_key, &key);
    assert_eq!(decrypt_key(&encrypted, &key), chat_key);
    let zeros = [0u8; 32];
    assert_eq!(decrypt_key(&encrypt_key(&zeros, &key), &key), zeros);
    for _ in 0..64 {
        let a = generate_aes_key();
        assert_eq!(decrypt_key(&encrypt_key(&a, &key), &key), a);
    }
}

#[test]
fn base64_text_known_answer() {
    let key = counting_key();
    assert_eq!(encrypt_string_to_base64("Hello world!", &key), "EMSnbMFsc11OfIzEkK4ohw");
    assert_eq!(encrypt_string_to_base64("exactly sixteen!", &key), "uKgzjVZc6SKvm9s2H+cGcg");
    assert_eq!(encrypt_string_to_base64("", &key), "");
    assert_eq!(decrypt_base64_to_string("EMSnbMFsc11OfIzEkK4ohw", &key), "Hello world!");
}

#[test]
fn non_ascii_text_round_trips() {
    let key = counting_key();
    let text = "zażółć";
    let encoded = encrypt_string_to_base64(text, &key);
    assert_eq!(encoded, "wdqfvMaAgwpx1MmRWAWBOQ");
    assert_eq!(decrypt_base64_to_string(&encoded, &key), text);
}

#[test]
fn unreadable_texts_are_reported() {
    let key = counting_key();
    assert_eq!(
        try_decrypt_base64_to_string("not base64!", &key),
        Err(DecryptTextError::InvalidBase64)
    );
    assert_eq!(
        try_decrypt_base64_to_string("jqK3ylFnRb/q/EmQS0lgiQ", &key),
        Err(DecryptTextError::InvalidUtf8)
    );
    assert_eq!(
        try_decrypt_base64_to_string("EMSnbMFsc11OfIzEkK4ohw", &key),
        Ok("Hello world!".to_string())
    );
}
