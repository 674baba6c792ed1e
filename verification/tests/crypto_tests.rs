use s3po::config::S3Config;
use s3po::crypto::{
    bytes_to_mnemonic, decrypt, decrypt_bytes, decrypt_file, encrypt, encrypt_bytes, encrypt_file,
    encrypted_name, generate_keys, is_encrypted_name, keys_bs58_to_bytes, keys_bytes_to_bs58,
    keys_from_decoded, mnemonic_to_bytes, new_keys, opened, plain_name, random_bytes,
    random_mnemonic, sealed, sign,
    signature_of, test_crypto, verify, CryptoError, DecodeError, DecryptError, EncryptError,
    FileWrite, SignError, ENVELOPE_OVERHEAD,
};

fn unhex(text: &str) -> Vec<u8> {
    let digits: Vec<u8> = text.bytes().map(|b| (b as char).to_digit(16).unwrap() as u8).collect();
    digits.chunks(2).map(|pair| pair[0] * 16 + pair[1]).collect()
}

fn profile_with_keys() -> S3Config {
    S3Config::create("work".to_string(), "u".to_string(), "a".to_string(), "s".to_string()).unwrap()
}

#[test]
fn generated_keys_have_their_lengths_and_differ() {
    let (sk1, pk1) = generate_keys();
    let (sk2, pk2) = generate_keys();
    assert_eq!(sk1.len(), 32);
    assert_eq!(pk1.len(), 65);
    assert_eq!(pk1[0], 4);
    assert_ne!(sk1, sk2);
    assert_ne!(pk1, pk2);
}

#[test]
fn key_texts_of_known_bytes() {
    let (sk, pk) = keys_bytes_to_bs58([0u8; 32], [0u8; 65]);
    assert_eq!(sk, "1".repeat(32));
    assert_eq!(pk, "1".repeat(65));
    let mut one = [0u8; 32];
    one[31] = 1;
    let (sk, _) = keys_bytes_to_bs58(one, [0u8; 65]);
    assert_eq!(sk, "1".repeat(31) + "2");
    let mut big = [0u8; 32];
    big[31] = 58;
    let (sk, _) = keys_bytes_to_bs58(big, [0u8; 65]);
    assert_eq!(sk, "1".repeat(31) + "21");
}

#[test]
fn key_texts_agree_with_the_codec() {
    let (sk, pk) = generate_keys();
    let (sk_text, pk_text) = keys_bytes_to_bs58(sk, pk);
    assert_eq!(sk_text, bs58::encode(sk).into_string());
    assert_eq!(pk_text, bs58::encode(pk).into_string());
}

#[test]
fn key_texts_read_back() {
    let (sk, pk) = generate_keys();
    let (sk_text, pk_text) = keys_bytes_to_bs58(sk, pk);
    assert_eq!(keys_bs58_to_bytes(sk_text, pk_text), Ok((sk, pk)));
}

#[test]
fn keys_that_were_read_write_the_same_texts() {
    let texts = [
        ("1".repeat(32), "1".repeat(65)),
        ("1".repeat(31) + "2", "1".repeat(64) + "z"),
        (bs58::encode([0xFFu8; 32]).into_string(), bs58::encode([0x80u8; 65]).into_string()),
    ];
    for (sk_text, pk_text) in texts {
        let (sk, pk) = keys_bs58_to_bytes(sk_text.clone(), pk_text.clone()).unwrap();
        assert_eq!(keys_bytes_to_bs58(sk, pk), (sk_text, pk_text));
    }
    let (sk_text, pk_text) = new_keys();
    let (sk, pk) = keys_bs58_to_bytes(sk_text.clone(), pk_text.clone()).unwrap();
    assert_eq!(keys_bytes_to_bs58(sk, pk), (sk_text, pk_text));
}

#[test]
fn generated_keys_are_marked_and_not_zero() {
    for _ in 0..8 {
        let (sk, pk) = generate_keys();
        assert_eq!(pk[0], 4);
        assert_ne!(sk, [0u8; 32]);
    }
}

#[test]
fn a_generated_key_seals_whatever_it_is_given() {
    let (sk, pk) = generate_keys();
    for len in [0usize, 1, 31, 32, 63, 64, 65, 1000, 65536] {
        for fill in [0u8, 0xFF, 0x5A] {
            let msg = vec![fill; len];
            let sealed = encrypt(&pk, &msg).unwrap();
            assert_eq!(sealed.len(), len + ENVELOPE_OVERHEAD);
            assert_eq!(decrypt(&sk, &sealed), Ok(msg));
        }
    }
}

#[test]
fn a_generated_key_signs_whatever_digest_it_is_given() {
    for _ in 0..8 {
        let (sk, pk) = generate_keys();
        for fill in [0u8, 1, 0xFF] {
            let signature = sign(&sk, &[fill; 32]).unwrap();
            assert!(verify(&pk, &[fill; 32], &signature));
        }
    }
}

#[test]
fn a_profile_with_keys_seals_whatever_it_is_given() {
    let cfg = profile_with_keys();
    for len in [0usize, 1, 104, 105, 4096] {
        let msg = vec![7u8; len];
        let sealed = encrypt_bytes(&cfg, &msg).unwrap();
        assert_eq!(decrypt_bytes(&cfg, &sealed), Ok(msg.clone()));
        let file = encrypt_file(&cfg, "f", &msg).unwrap();
        assert_eq!(file.path, "f.x");
        assert_eq!(decrypt_bytes(&cfg, &file.bytes), Ok(msg));
    }
}

#[test]
fn known_key_texts_read_back() {
    let mut one = [0u8; 32];
    one[31] = 1;
    assert_eq!(
        keys_bs58_to_bytes("1".repeat(31) + "2", "1".repeat(65)),
        Ok((one, [0u8; 65]))
    );
}

#[test]
fn key_text_with_a_foreign_character_is_bad_alphabet() {
    let good_pk = "1".repeat(65);
    for bad in ["0", "O", "I", "l", " ", "é", "+", "1 1"] {
        let text = "1".repeat(31) + bad;
        assert_eq!(
            keys_bs58_to_bytes(text.clone(), good_pk.clone()),
            Err(DecodeError::BadAlphabet),
            "{:?}",
            bad
        );
        assert_eq!(
            keys_bs58_to_bytes("1".repeat(32), text),
            Err(DecodeError::BadAlphabet),
            "{:?}",
            bad
        );
    }
}

#[test]
fn exactly_the_alphabet_is_read() {
    let alphabet = "123456789ABCDEFGHJKLMNPQRSTUVWXYZabcdefghijkmnopqrstuvwxyz";
    let good_pk = "1".repeat(65);
    let mut code: u32 = 0;
    while code <= 0x10FFFF {
        if let Some(c) = char::from_u32(code) {
            let expected = if alphabet.contains(c) {
                DecodeError::BadLength
            } else {
                DecodeError::BadAlphabet
            };
            assert_eq!(
                keys_bs58_to_bytes(c.to_string(), good_pk.clone()),
                Err(expected),
                "U+{:04X}",
                code
            );
        }
        code += if code < 0x3000 { 1 } else { 37 };
    }
}

#[test]
fn key_text_of_another_length_is_bad_length() {
    assert_eq!(
        keys_bs58_to_bytes("1".repeat(31), "1".repeat(65)),
        Err(DecodeError::BadLength)
    );
    assert_eq!(
        keys_bs58_to_bytes("1".repeat(33), "1".repeat(65)),
        Err(DecodeError::BadLength)
    );
    assert_eq!(
        keys_bs58_to_bytes("1".repeat(32), "1".repeat(64)),
        Err(DecodeError::BadLength)
    );
    assert_eq!(keys_bs58_to_bytes(String::new(), String::new()), Err(DecodeError::BadLength));
}

#[test]
fn bad_alphabet_comes_before_bad_length() {
    assert_eq!(keys_bs58_to_bytes("1".to_string(), "0".to_string()), Err(DecodeError::BadAlphabet));
}

#[test]
fn keys_from_decoded_checks_presence_then_length() {
    assert_eq!(keys_from_decoded(None, Some(vec![0; 65])), Err(DecodeError::BadAlphabet));
    assert_eq!(keys_from_decoded(Some(vec![0; 32]), None), Err(DecodeError::BadAlphabet));
    assert_eq!(keys_from_decoded(None, None), Err(DecodeError::BadAlphabet));
    assert_eq!(keys_from_decoded(Some(vec![0; 31]), Some(vec![0; 65])), Err(DecodeError::BadLength));
    assert_eq!(keys_from_decoded(Some(vec![0; 32]), Some(vec![0; 66])), Err(DecodeError::BadLength));
    assert_eq!(keys_from_decoded(Some(vec![7; 32]), Some(vec![9; 65])), Ok(([7; 32], [9; 65])));
}

#[test]
fn new_keys_are_texts_of_a_pair() {
    let (sk_text, pk_text) = new_keys();
    let (sk, pk) = keys_bs58_to_bytes(sk_text, pk_text).unwrap();
    let sealed = encrypt(&pk, b"pair").unwrap();
    assert_eq!(decrypt(&sk, &sealed), Ok(b"pair".to_vec()));
}

#[test]
fn round_trip_of_hello() {
    let (sk, pk) = generate_keys();
    let sealed = encrypt(&pk, b"hello").unwrap();
    assert_eq!(decrypt(&sk, &sealed), Ok(b"hello".to_vec()));
}

#[test]
fn round_trip_of_the_empty_message() {
    let (sk, pk) = generate_keys();
    let sealed = encrypt(&pk, b"").unwrap();
    assert_eq!(sealed.len(), ENVELOPE_OVERHEAD);
    assert_eq!(decrypt(&sk, &sealed), Ok(Vec::new()));
}

#[test]
fn round_trip_of_megabytes() {
    let (sk, pk) = generate_keys();
    let msg: Vec<u8> = (0..3 * 1024 * 1024).map(|i| (i % 251) as u8).collect();
    let sealed = encrypt(&pk, &msg).unwrap();
    assert_eq!(sealed.len(), msg.len() + ENVELOPE_OVERHEAD);
    assert_eq!(decrypt(&sk, &sealed), Ok(msg));
}

#[test]
fn envelope_is_longer_by_the_overhead_and_hides_the_message() {
    let (_, pk) = generate_keys();
    let msg = b"hello hello hello hello";
    let sealed = encrypt(&pk, msg).unwrap();
    assert_eq!(sealed.len(), msg.len() + 105);
    assert_ne!(&sealed[105..], &msg[..]);
    assert_ne!(&sealed[..msg.len()], &msg[..]);
}

#[test]
fn two_sealings_differ() {
    let (sk, pk) = generate_keys();
    let a = encrypt(&pk, b"hello").unwrap();
    let b = encrypt(&pk, b"hello").unwrap();
    assert_ne!(a, b);
    assert_eq!(decrypt(&sk, &a), Ok(b"hello".to_vec()));
    assert_eq!(decrypt(&sk, &b), Ok(b"hello".to_vec()));
}

#[test]
fn a_flipped_byte_is_detected() {
    let (sk, pk) = generate_keys();
    let sealed = encrypt(&pk, b"hello").unwrap();
    for i in 0..sealed.len() {
        for mask in [0x01u8, 0x80u8, 0xFFu8] {
            let mut altered = sealed.clone();
            altered[i] ^= mask;
            assert_eq!(decrypt(&sk, &altered), Err(DecryptError::AuthFailed), "byte {}", i);
        }
    }
}

#[test]
fn another_key_does_not_open() {
    let (_, pk) = generate_keys();
    let (other, _) = generate_keys();
    let sealed = encrypt(&pk, b"hello").unwrap();
    assert_eq!(decrypt(&other, &sealed), Err(DecryptError::AuthFailed));
}

#[test]
fn known_envelope_opens() {
    let sk = unhex("9445d8b9911622546a266b2e663bf2b498073a64279409afb9ef20f8259c651f");
    let sealed = unhex(
        "04eaf35ad4dde0ace3f673fec6be164dc68e11aa9c1988d4c1b91f0ccdef94cf591aae4e9daf5f8a87837136fc70811df852015a8b4e2cb374c27db16933536085f34470ffef72667bbe984c145302fc8d37f66563339c47f41ef871ee0ebda8c1bad133c3b203c769cb694e5adbd6c9f02b2eedd939875a",
    );
    assert_eq!(decrypt(&sk, &sealed), Ok("hello world🌍".as_bytes().to_vec()));
}

#[test]
fn encrypt_turns_down_a_key_of_another_length() {
    let (_, pk) = generate_keys();
    assert_eq!(encrypt(&pk[..64], b"m"), Err(EncryptError::KeyLength));
    assert_eq!(encrypt(&[], b"m"), Err(EncryptError::KeyLength));
    assert_eq!(encrypt(&[2u8; 33], b"m"), Err(EncryptError::KeyLength));
    assert_eq!(encrypt(&[4u8; 66], b"m"), Err(EncryptError::KeyLength));
}

#[test]
fn encrypt_reports_a_key_that_the_cipher_refuses() {
    let mut not_a_point = [0u8; 65];
    not_a_point[0] = 4;
    assert_eq!(encrypt(&not_a_point, b"m"), Err(EncryptError::Refused));
    assert_eq!(encrypt(&[0u8; 65], b""), Err(EncryptError::Refused));
}

#[test]
fn decrypt_turns_down_a_key_of_another_length() {
    assert_eq!(decrypt(&[1u8; 31], &[0u8; 200]), Err(DecryptError::KeyLength));
    assert_eq!(decrypt(&[1u8; 33], &[0u8; 200]), Err(DecryptError::KeyLength));
    assert_eq!(decrypt(&[], &[]), Err(DecryptError::KeyLength));
}

#[test]
fn decrypt_turns_down_a_short_envelope() {
    let (sk, pk) = generate_keys();
    assert_eq!(decrypt(&sk, &[]), Err(DecryptError::Malformed));
    assert_eq!(decrypt(&sk, &[0u8; 104]), Err(DecryptError::Malformed));
    let sealed = encrypt(&pk, b"").unwrap();
    assert_eq!(decrypt(&sk, &sealed[..104]), Err(DecryptError::Malformed));
}

#[test]
fn decrypt_reports_what_does_not_open() {
    let (sk, _) = generate_keys();
    assert_eq!(decrypt(&sk, &[0u8; 105]), Err(DecryptError::AuthFailed));
    assert_eq!(decrypt(&[0u8; 32], &[0u8; 105]), Err(DecryptError::AuthFailed));
}

#[test]
fn sealed_and_opened_and_signature_of_name_the_refusal() {
    assert_eq!(sealed(Some(vec![1, 2])), Ok(vec![1, 2]));
    assert_eq!(sealed(None), Err(EncryptError::Refused));
    assert_eq!(opened(Some(vec![3])), Ok(vec![3]));
    assert_eq!(opened(None), Err(DecryptError::AuthFailed));
    assert_eq!(signature_of(Some(vec![4])), Ok(vec![4]));
    assert_eq!(signature_of(None), Err(SignError::Refused));
}

#[test]
fn a_signature_is_accepted_under_its_key() {
    let (sk, pk) = generate_keys();
    let digest = [7u8; 32];
    let signature = sign(&sk, &digest).unwrap();
    assert_eq!(signature.len(), 64);
    assert_ne!(&signature[..32], &digest[..]);
    assert!(verify(&pk, &digest, &signature));
}

#[test]
fn a_signature_is_the_same_each_time() {
    let (sk, _) = generate_keys();
    assert_eq!(sign(&sk, &[9u8; 32]), sign(&sk, &[9u8; 32]));
}

#[test]
fn a_signature_is_not_accepted_for_anything_else() {
    let (sk, pk) = generate_keys();
    let (_, other) = generate_keys();
    let digest = [7u8; 32];
    let signature = sign(&sk, &digest).unwrap();
    assert!(!verify(&pk, &[8u8; 32], &signature));
    assert!(!verify(&other, &digest, &signature));
    let mut altered = signature.clone();
    altered[10] ^= 1;
    assert!(!verify(&pk, &digest, &altered));
}

#[test]
fn verify_answers_false_to_what_is_malformed() {
    let (sk, pk) = generate_keys();
    let digest = [7u8; 32];
    let signature = sign(&sk, &digest).unwrap();
    assert!(!verify(&pk, &digest, &signature[..63]));
    assert!(!verify(&pk, &digest, &[]));
    assert!(!verify(&pk, &digest, &[0xFFu8; 64]));
    assert!(!verify(&pk, &digest[..31], &signature));
    assert!(!verify(&pk[..33], &digest, &signature));
    assert!(!verify(&[0u8; 65], &digest, &signature));
    assert!(!verify(&[], &[], &[]));
}

#[test]
fn sign_turns_down_wrong_lengths_and_reports_a_refused_key() {
    let (sk, _) = generate_keys();
    assert_eq!(sign(&sk[..31], &[7u8; 32]), Err(SignError::KeyLength));
    assert_eq!(sign(&sk, &[7u8; 31]), Err(SignError::DigestLength));
    assert_eq!(sign(&sk, &[7u8; 33]), Err(SignError::DigestLength));
    assert_eq!(sign(&[], &[]), Err(SignError::KeyLength));
    assert_eq!(sign(&[0u8; 32], &[7u8; 32]), Err(SignError::Refused));
    assert_eq!(sign(&[0xFFu8; 32], &[7u8; 32]), Err(SignError::Refused));
}

#[test]
fn random_bytes_are_six() {
    assert_eq!(random_bytes().len(), 6);
    let draws: Vec<Vec<u8>> = (0..8).map(|_| random_bytes()).collect();
    assert!(draws.iter().any(|d| d != &draws[0]));
}

#[test]
fn mnemonic_of_known_bytes() {
    assert_eq!(
        bytes_to_mnemonic(vec![101, 2, 240, 6, 108, 11, 20, 97]),
        "digital-apollo-aroma--rival-artist-rebel"
    );
    assert_eq!(bytes_to_mnemonic(Vec::new()), "");
}

#[test]
fn bytes_of_a_known_mnemonic() {
    assert_eq!(
        mnemonic_to_bytes("digital-apollo-aroma--rival-artist-rebel".to_string()),
        Some(vec![101, 2, 240, 6, 108, 11, 20, 97])
    );
    assert_eq!(mnemonic_to_bytes(String::new()), Some(Vec::new()));
    assert_eq!(mnemonic_to_bytes("digital apollo aroma".to_string()), Some(vec![101, 2, 240, 6]));
}

#[test]
fn words_that_are_none_give_no_bytes() {
    assert_eq!(mnemonic_to_bytes("qwertz".to_string()), None);
    assert_eq!(mnemonic_to_bytes("digital-qwertz".to_string()), None);
}

#[test]
fn mnemonic_reads_back() {
    let bytes = random_bytes();
    assert_eq!(mnemonic_to_bytes(bytes_to_mnemonic(bytes.clone())), Some(bytes));
}

#[test]
fn random_mnemonic_has_five_words() {
    let text = random_mnemonic();
    let words: Vec<&str> = text.split('-').filter(|w| !w.is_empty()).collect();
    assert_eq!(words.len(), 5);
    let mut bytes = Vec::new();
    mnemonic::decode(&text, &mut bytes).unwrap();
    assert_eq!(bytes.len(), 6);
}

#[test]
fn encrypted_names_carry_the_suffix() {
    assert_eq!(encrypted_name("report.csv"), "report.csv.x");
    assert_eq!(encrypted_name(""), ".x");
    assert_eq!(encrypted_name("a.x"), "a.x.x");
    assert!(is_encrypted_name("report.csv.x"));
    assert!(!is_encrypted_name("report.csv"));
    assert!(!is_encrypted_name("x"));
    assert!(!is_encrypted_name("report.X"));
    assert_eq!(plain_name("report.csv.x"), Some("report.csv".to_string()));
    assert_eq!(plain_name("report.csv"), None);
    assert_eq!(plain_name(&encrypted_name("wörk 🌍")), Some("wörk 🌍".to_string()));
}

#[test]
fn profile_seals_and_opens() {
    let cfg = profile_with_keys();
    let sealed = encrypt_bytes(&cfg, b"hello").unwrap();
    assert_eq!(sealed.len(), 5 + ENVELOPE_OVERHEAD);
    assert_eq!(decrypt_bytes(&cfg, &sealed), Ok(b"hello".to_vec()));
}

#[test]
fn profile_with_bad_key_texts_neither_seals_nor_opens() {
    let mut cfg = profile_with_keys();
    cfg.sk_bs58 = "0".to_string();
    assert_eq!(encrypt_bytes(&cfg, b"m"), Err(CryptoError::Key(DecodeError::BadAlphabet)));
    assert_eq!(decrypt_bytes(&cfg, &[0u8; 200]), Err(CryptoError::Key(DecodeError::BadAlphabet)));
    cfg.sk_bs58 = "11".to_string();
    assert_eq!(encrypt_bytes(&cfg, b"m"), Err(CryptoError::Key(DecodeError::BadLength)));
    assert_eq!(decrypt_bytes(&cfg, &[0u8; 200]), Err(CryptoError::Key(DecodeError::BadLength)));
}

#[test]
fn profile_reports_why_nothing_opened() {
    let cfg = profile_with_keys();
    assert_eq!(decrypt_bytes(&cfg, &[0u8; 10]), Err(CryptoError::Decrypt(DecryptError::Malformed)));
    assert_eq!(
        decrypt_bytes(&cfg, &[0u8; 105]),
        Err(CryptoError::Decrypt(DecryptError::AuthFailed))
    );
    let other = profile_with_keys();
    let sealed = encrypt_bytes(&other, b"m").unwrap();
    assert_eq!(decrypt_bytes(&cfg, &sealed), Err(CryptoError::Decrypt(DecryptError::AuthFailed)));
}

#[test]
fn profile_reports_a_refused_public_key() {
    let mut cfg = profile_with_keys();
    cfg.pk_bs58 = bs58::encode([0u8; 65]).into_string();
    assert_eq!(encrypt_bytes(&cfg, b"m"), Err(CryptoError::Encrypt(EncryptError::Refused)));
}

#[test]
fn encrypt_file_names_the_file_beside() {
    let cfg = profile_with_keys();
    let write = encrypt_file(&cfg, "/tmp/report.csv", b"a,b").unwrap();
    assert_eq!(write.path, "/tmp/report.csv.x");
    assert_eq!(decrypt_bytes(&cfg, &write.bytes), Ok(b"a,b".to_vec()));
}

#[test]
fn decrypt_file_needs_the_suffix() {
    let cfg = profile_with_keys();
    let sealed = encrypt_bytes(&cfg, b"a,b").unwrap();
    assert_eq!(decrypt_file(&cfg, "/tmp/report.csv", &sealed), Err(CryptoError::NotEncrypted));
    assert_eq!(
        decrypt_file(&cfg, "/tmp/report.csv.x", &sealed),
        Ok(FileWrite { path: "/tmp/report.csv".to_string(), bytes: b"a,b".to_vec() })
    );
}

#[test]
fn decrypt_file_writes_nothing_that_did_not_open() {
    let cfg = profile_with_keys();
    let mut sealed = encrypt_bytes(&cfg, b"a,b").unwrap();
    sealed[106] ^= 1;
    assert_eq!(
        decrypt_file(&cfg, "/tmp/report.csv.x", &sealed),
        Err(CryptoError::Decrypt(DecryptError::AuthFailed))
    );
    assert_eq!(
        decrypt_file(&cfg, "/tmp/report.csv.x", &[]),
        Err(CryptoError::Decrypt(DecryptError::Malformed))
    );
}

#[test]
fn the_chain_runs() {
    let report = test_crypto(b"helloworld").unwrap();
    assert_eq!(report.decrypted, b"helloworld");
    assert!(report.verified);
    let (sk, pk) = keys_bs58_to_bytes(report.sk_bs58.clone(), report.pk_bs58.clone()).unwrap();
    let sealed = bs58::decode(&report.encrypted_bs58).into_vec().unwrap();
    assert_eq!(decrypt(&sk, &sealed), Ok(b"helloworld".to_vec()));
    let signature = bs58::decode(&report.signature_bs58).into_vec().unwrap();
    assert!(verify(&pk, &sealed[..32], &signature));
}

#[test]
fn the_chain_runs_on_the_empty_message() {
    let report = test_crypto(b"").unwrap();
    assert_eq!(report.decrypted, b"");
    assert!(report.verified);
}
