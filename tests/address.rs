use fil_address::address::{MAX_ADDRESS_STRING_LEN, MAX_U64_LEN};
use fil_address::{Address, AddressError, Network, Protocol};

fn lower_base32() -> data_encoding::Encoding {
    let mut spec = data_encoding::Specification::new();
    spec.symbols.push_str("abcdefghijklmnopqrstuvwxyz234567");
    spec.encoding().unwrap()
}

fn blake2b(data: &[u8], len: usize) -> Vec<u8> {
    blake2b_simd::Params::new().hash_length(len).hash(data).as_bytes().to_vec()
}

fn sample_addresses() -> Vec<Address> {
    vec![
        Address::new_id_addr(0).unwrap(),
        Address::new_id_addr(1024).unwrap(),
        Address::new_id_addr(u64::MAX).unwrap(),
        Address::new_secp256k1_addr(&[4u8; 65]).unwrap(),
        Address::new_secp256k1_addr(&[2u8; 33]).unwrap(),
        Address::new_actor_addr(b"actor init data").unwrap(),
        Address::new_bls_addr(&[7u8; 48]).unwrap(),
    ]
}

#[test]
fn address_cbor_serde() {
    let id_addr = Address::new_id_addr(12_512_063u64).unwrap();
    let ser = minicbor::to_vec(minicbor::bytes::ByteVec::from(id_addr.as_bytes())).unwrap();
    assert_eq!(ser, [69, 0, 191, 214, 251, 5]);
    let bytes: minicbor::bytes::ByteVec = minicbor::decode(&ser).unwrap();
    let de = Address::new_from_bytes(&Vec::from(bytes)).unwrap();
    assert_eq!(de, id_addr);
}

#[test]
fn address_json_serde() {
    let network = Network::Test;
    let id_addr = Address::new_id_addr(1024).unwrap();
    assert_eq!(id_addr.to_text(network), "t01024");
    let ser = serde_json::to_string(&id_addr.to_text(network)).unwrap();
    assert_eq!(ser, "\"t01024\"");
    let text: String = serde_json::from_str(&ser).unwrap();
    let de = Address::from_text(&text, network).unwrap();
    assert_eq!(de, id_addr);
}

#[test]
fn binary_round_trip_every_protocol() {
    for a in sample_addresses() {
        let bytes = a.as_bytes();
        assert_eq!(bytes.len(), 1 + a.payload().len());
        assert_eq!(Address::new_from_bytes(&bytes).unwrap(), a);
    }
}

#[test]
fn text_round_trip_both_networks() {
    for a in sample_addresses() {
        for network in [Network::Main, Network::Test] {
            let text = a.to_text(network);
            assert!(text.len() <= MAX_ADDRESS_STRING_LEN);
            assert_eq!(Address::from_text(&text, network).unwrap(), a);
        }
    }
}

#[test]
fn cross_network_rejected() {
    for a in sample_addresses() {
        let main = a.to_text(Network::Main);
        assert!(main.starts_with('f'));
        assert_eq!(Address::from_text(&main, Network::Test), Err(AddressError::MismatchNetwork));
        let test = a.to_text(Network::Test);
        assert!(test.starts_with('t'));
        assert_eq!(Address::from_text(&test, Network::Main), Err(AddressError::MismatchNetwork));
    }
}

#[test]
fn single_bit_flips_fail_checksum() {
    let enc = lower_base32();
    for a in sample_addresses().into_iter().filter(|a| a.protocol() != Protocol::Id) {
        let text = a.to_text(Network::Test);
        let decoded = enc.decode(text[2..].as_bytes()).unwrap();
        assert_eq!(decoded.len(), a.payload().len() + 4);
        for i in 0..decoded.len() {
            for bit in 0..8 {
                let mut flipped = decoded.clone();
                flipped[i] ^= 1 << bit;
                let forged = format!("{}{}", &text[..2], enc.encode(&flipped));
                assert_eq!(Address::from_text(&forged, Network::Test), Err(AddressError::InvalidChecksum));
                assert_eq!(Address::new_with_check(a.protocol(), &flipped), Err(AddressError::InvalidChecksum));
            }
        }
    }
}

#[test]
fn shape_enforcement() {
    assert_eq!(Address::new_bls_addr(&[1u8; 47]), Err(AddressError::InvalidPayload));
    assert_eq!(Address::new_bls_addr(&[1u8; 49]), Err(AddressError::InvalidPayload));
    assert!(Address::new_bls_addr(&[1u8; 48]).is_ok());
    assert_eq!(Address::new_secp256k1_addr(&[1u8; 20]), Err(AddressError::InvalidPayload));
    for len in [65usize, 64, 33] {
        let a = Address::new_secp256k1_addr(&vec![3u8; len]).unwrap();
        assert_eq!(a.protocol(), Protocol::Secp256k1);
        assert_eq!(a.payload().len(), 20);
    }
    let actor = Address::new_actor_addr(&[]).unwrap();
    assert_eq!(actor.payload().len(), 20);
}

#[test]
fn id_boundaries() {
    let zero = Address::new_id_addr(0).unwrap();
    assert_eq!(zero.to_text(Network::Test), "t00");
    assert_eq!(Address::from_text("t00", Network::Test).unwrap(), zero);
    let k = Address::new_id_addr(1024).unwrap();
    assert_eq!(k.to_text(Network::Test), "t01024");
    assert_eq!(Address::from_text("t01024", Network::Test).unwrap(), k);
    let max = Address::new_id_addr(u64::MAX).unwrap();
    assert_eq!(max.to_text(Network::Main), "f018446744073709551615");
    assert_eq!(Address::from_text("t0123456789012345678901", Network::Test), Err(AddressError::InvalidLength));
    let too_long = format!("t0{}", "9".repeat(MAX_U64_LEN + 1));
    assert_eq!(Address::from_text(&too_long, Network::Test), Err(AddressError::InvalidLength));
    assert_eq!(Address::from_text("t018446744073709551616", Network::Test), Err(AddressError::InvalidPayload));
    assert_eq!("18446744073709551616".len(), MAX_U64_LEN);
}

#[test]
fn id_binary_scenario() {
    let a = Address::new_id_addr(12_512_063).unwrap();
    assert_eq!(a.as_bytes(), vec![0x00, 191, 214, 251, 5]);
    assert_eq!(a.payload(), &[191, 214, 251, 5]);
    let b = Address::new_from_bytes(&[0x00, 191, 214, 251, 5]).unwrap();
    assert_eq!(b, a);
    assert_eq!(b.as_id(), Some(12_512_063));
}

#[test]
fn id_text_scenario() {
    let a = Address::from_text("t01024", Network::Test).unwrap();
    assert_eq!(a.protocol(), Protocol::Id);
    assert_eq!(a.as_id(), Some(1024));
    assert_eq!(a.to_text(Network::Test), "t01024");
}

#[test]
fn malformed_text() {
    assert_eq!(Address::from_text("x", Network::Test), Err(AddressError::InvalidLength));
    assert_eq!(Address::from_text("t0", Network::Test), Err(AddressError::InvalidLength));
    assert_eq!(Address::from_text("t9abc", Network::Test), Err(AddressError::UnknownProtocol));
    assert_eq!(Address::from_text("t91", Network::Test), Err(AddressError::UnknownProtocol));
    let long = format!("t1{}", "a".repeat(MAX_ADDRESS_STRING_LEN - 1));
    assert_eq!(Address::from_text(&long, Network::Test), Err(AddressError::InvalidLength));
}

#[test]
fn text_error_variants() {
    assert_eq!(Address::from_text("x0123", Network::Test), Err(AddressError::UnknownNetwork));
    assert_eq!(Address::from_text("f0123", Network::Test), Err(AddressError::MismatchNetwork));
    assert_eq!(Address::from_text("t0abc", Network::Test), Err(AddressError::InvalidPayload));
    assert_eq!(Address::from_text("t0-5", Network::Test), Err(AddressError::InvalidPayload));
    assert_eq!(Address::from_text("t1!!!", Network::Test), Err(AddressError::Base32Decode));
    assert_eq!(Address::from_text("t1ABCD", Network::Test), Err(AddressError::Base32Decode));
    assert_eq!(Address::from_text("t1aaaaaaaa", Network::Test), Err(AddressError::InvalidPayload));
    assert_eq!(Address::from_text("t1aa", Network::Test), Err(AddressError::InvalidPayload));
    let plus = Address::from_text("t0+5", Network::Test).unwrap();
    assert_eq!(plus.as_id(), Some(5));
}

#[test]
fn binary_error_variants() {
    assert_eq!(Address::new_from_bytes(&[]), Err(AddressError::InvalidLength));
    assert_eq!(Address::new_from_bytes(&[0]), Err(AddressError::InvalidLength));
    assert_eq!(Address::new_from_bytes(&[4, 1]), Err(AddressError::UnknownProtocol));
    assert_eq!(Address::new_from_bytes(&[1, 1, 2]), Err(AddressError::InvalidPayload));
    assert_eq!(Address::new_from_bytes(&[3; 48]), Err(AddressError::InvalidPayload));
    assert_eq!(Address::new_from_bytes(&[0, 0x80]), Err(AddressError::InvalidPayload));
    assert_eq!(Address::new_from_bytes(&[0, 0x80, 0x00]), Err(AddressError::InvalidPayload));
    assert_eq!(Address::new_from_bytes(&[0, 5, 7]), Err(AddressError::InvalidPayload));
    assert_eq!(
        Address::new_from_bytes(&[0, 0xff, 0xff, 0xff, 0xff, 0xff, 0xff, 0xff, 0xff, 0xff, 0x7f]),
        Err(AddressError::InvalidPayload)
    );
}

#[test]
fn wrappers_compute() {
    let id = Address::new_id_addr(300).unwrap();
    assert_eq!(id.payload(), &[0xac, 0x02]);
    let key = [9u8; 65];
    let secp = Address::new_secp256k1_addr(&key).unwrap();
    assert_eq!(secp.payload(), blake2b(&key, 20).as_slice());
    let checksum = blake2b(&secp.as_bytes(), 4);
    assert_eq!(secp.checksum(), checksum);
    let mut tail = secp.payload().to_vec();
    tail.extend_from_slice(&checksum);
    assert_eq!(secp.to_text(Network::Main), format!("f1{}", lower_base32().encode(&tail)));
}

#[test]
fn accessors() {
    let a = Address::new_bls_addr(&[5u8; 48]).unwrap();
    assert_eq!(a.protocol(), Protocol::Bls);
    assert_eq!(a.payload(), &[5u8; 48][..]);
    assert_eq!(a.as_id(), None);
    assert_eq!(a.network(), Network::Test);
    assert_eq!(a.clone(), a);
    assert_eq!(Network::default(), Network::Test);
    assert_eq!(Network::Main.prefix(), "f");
    assert_eq!(Network::Test.prefix(), "t");
    assert_eq!(Protocol::from_byte(3), Some(Protocol::Bls));
    assert_eq!(Protocol::from_byte(4), None);
    assert_eq!(Protocol::Actor.as_byte(), 2);
}
