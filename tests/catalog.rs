use gcrypt::{Algorithm, Mode};

const ALGORITHMS: [(Algorithm, i32); 28] = [
    (Algorithm::Idea, 1),
    (Algorithm::TripleDes, 2),
    (Algorithm::Cast5, 3),
    (Algorithm::Blowfish, 4),
    (Algorithm::SaferSk128, 5),
    (Algorithm::DesSk, 6),
    (Algorithm::Aes, 7),
    (Algorithm::Aes192, 8),
    (Algorithm::Aes256, 9),
    (Algorithm::Twofish, 10),
    (Algorithm::Arcfour, 301),
    (Algorithm::Des, 302),
    (Algorithm::Twofish128, 303),
    (Algorithm::Serpent128, 304),
    (Algorithm::Serpent192, 305),
    (Algorithm::Serpent256, 306),
    (Algorithm::Rfc2268_40, 307),
    (Algorithm::Rfc2268_128, 308),
    (Algorithm::Seed, 309),
    (Algorithm::Camellia128, 310),
    (Algorithm::Camellia192, 311),
    (Algorithm::Camellia256, 312),
    (Algorithm::Salsa20, 313),
    (Algorithm::Salsa20r12, 314),
    (Algorithm::Gost28147, 315),
    (Algorithm::Chacha20, 316),
    (Algorithm::Gost28147Mesh, 317),
    (Algorithm::Sm4, 318),
];

const MODES: [(Mode, i32); 14] = [
    (Mode::Ecb, 1),
    (Mode::Cfb, 2),
    (Mode::Cbc, 3),
    (Mode::Stream, 4),
    (Mode::Ofb, 5),
    (Mode::Ctr, 6),
    (Mode::AesWrap, 7),
    (Mode::Ccm, 8),
    (Mode::Gcm, 9),
    (Mode::Poly1305, 10),
    (Mode::Ocb, 11),
    (Mode::Cfb8, 12),
    (Mode::Xts, 13),
    (Mode::Eax, 14),
];

#[test]
fn algorithm_codes_match_native_table() {
    for (algo, code) in ALGORITHMS.iter() {
        assert_eq!(algo.raw(), *code);
        assert_eq!(Algorithm::from_raw(*code), Some(*algo));
    }
}

#[test]
fn algorithm_aliases_share_codes() {
    assert_eq!(Algorithm::Aes128, Algorithm::Aes);
    assert_eq!(Algorithm::Rijndael, Algorithm::Aes);
    assert_eq!(Algorithm::Rijndael128, Algorithm::Aes);
    assert_eq!(Algorithm::Rijndael192, Algorithm::Aes192);
    assert_eq!(Algorithm::Rijndael256, Algorithm::Aes256);
    assert_eq!(Algorithm::Aes128.raw(), 7);
    assert_eq!(Algorithm::Rijndael256.raw(), 9);
}

#[test]
fn algorithm_unknown_codes_give_none() {
    assert_eq!(Algorithm::from_raw(0), None);
    assert_eq!(Algorithm::from_raw(11), None);
    assert_eq!(Algorithm::from_raw(300), None);
    assert_eq!(Algorithm::from_raw(319), None);
    assert_eq!(Algorithm::from_raw(-1), None);
    assert_eq!(Algorithm::from_raw(i32::MAX), None);
}

#[test]
fn mode_codes_match_native_table() {
    for (mode, code) in MODES.iter() {
        assert_eq!(mode.raw(), *code);
        assert_eq!(Mode::from_raw(*code), Some(*mode));
    }
}

#[test]
fn mode_unknown_codes_give_none() {
    assert_eq!(Mode::from_raw(0), None);
    assert_eq!(Mode::from_raw(15), None);
    assert_eq!(Mode::from_raw(16), None);
    assert_eq!(Mode::from_raw(-3), None);
}

#[test]
fn name_without_report_is_err_none() {
    assert!(matches!(Algorithm::name(None), Err(None)));
}

#[test]
fn name_decodes_reported_bytes() {
    let bytes: &'static [u8] = b"AES";
    assert_eq!(Algorithm::name(Some(bytes)), Ok("AES"));
    let bytes: &'static [u8] = b"CHACHA20";
    assert_eq!(Algorithm::name(Some(bytes)), Ok("CHACHA20"));
    let empty: &'static [u8] = b"";
    assert_eq!(Algorithm::name(Some(empty)), Ok(""));
}

#[test]
fn name_with_invalid_utf8_is_err_some() {
    let bytes: &'static [u8] = b"AES\xff";
    match Algorithm::name(Some(bytes)) {
        Err(Some(e)) => assert_eq!(e.valid_up_to(), 3),
        other => panic!("unexpected {:?}", other),
    }
}
