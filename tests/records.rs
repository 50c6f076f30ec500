use fil_address::{CryptoError, KeyInfo, KeyType, ObjStat, Signature, SignatureType};

#[test]
fn message_receipt_json_test() {}

#[test]
fn signature_type_bytes() {
    assert_eq!(SignatureType::try_from(1u8), Ok(SignatureType::Secp256k1));
    assert_eq!(SignatureType::try_from(2u8), Ok(SignatureType::Bls));
    assert_eq!(SignatureType::try_from(0u8), Err(CryptoError::UnknownSignatureType(0)));
    assert_eq!(u8::from(SignatureType::Secp256k1), 1);
    assert_eq!(u8::from(SignatureType::Bls), 2);
    assert_eq!(SignatureType::default(), SignatureType::Bls);
    let sig = Signature { sig_type: SignatureType::Bls, data: vec![1, 2, 3] };
    assert_eq!(sig.clone(), sig);
}

#[test]
fn key_type_names() {
    for (name, key) in [
        ("secp256k1", KeyType::Secp256k1),
        ("bls", KeyType::Bls),
        ("libp2p-host", KeyType::Libp2pHost),
        ("jwt-hmac-secret", KeyType::JwtHmacSecret),
        ("custom", KeyType::Other("custom".to_string())),
    ] {
        assert_eq!(key.name(), name);
        assert_eq!(KeyType::from_name(name.to_string()), key);
    }
    assert_ne!(KeyType::Other("bls".to_string()), KeyType::Bls);
    let info = KeyInfo { key_type: KeyType::Bls, private_key: vec![0; 32] };
    assert_eq!(info.clone(), info);
    let stat = ObjStat { size: 10, links: 2 };
    assert_eq!(stat, ObjStat { size: 10, links: 2 });
}
