use tap_query::signer::{recover_address, InvalidKey};
use tap_query::{has_balance, Address, FixedBytes, PrivateKeySigner, U256};

const ORDER: [u8; 32] = [
    0xff, 0xff, 0xff, 0xff, 0xff, 0xff, 0xff, 0xff, 0xff, 0xff, 0xff, 0xff, 0xff, 0xff, 0xff, 0xfe,
    0xba, 0xae, 0xdc, 0xe6, 0xaf, 0x48, 0xa0, 0x3b, 0xbf, 0xd2, 0x5e, 0x8c, 0xd0, 0x36, 0x41, 0x41,
];

#[test]
fn address_of_the_first_key() {
    let mut key = [0u8; 32];
    key[31] = 1;
    let signer = PrivateKeySigner::from_bytes(&key).ok().unwrap();
    assert_eq!(
        signer.address(),
        Address([
            0x7e, 0x5f, 0x45, 0x52, 0x09, 0x1a, 0x69, 0x12, 0x5d, 0x5d, 0xfc, 0xb7, 0xb8, 0xc2,
            0x65, 0x90, 0x29, 0x39, 0x5b, 0xdf,
        ])
    );
    assert_eq!(signer.clone().address(), signer.address());
}

#[test]
fn keys_lie_between_zero_and_the_order() {
    assert_eq!(PrivateKeySigner::from_bytes(&[0u8; 32]).err(), Some(InvalidKey));
    assert_eq!(PrivateKeySigner::from_bytes(&ORDER).err(), Some(InvalidKey));
    assert_eq!(PrivateKeySigner::from_bytes(&[0xffu8; 32]).err(), Some(InvalidKey));
    let mut last = ORDER;
    last[31] = 0x40;
    assert!(PrivateKeySigner::from_bytes(&last).is_ok());
}

#[test]
fn signatures_recover() {
    for n in 1u8..20 {
        let signer = PrivateKeySigner::from_bytes(&[n; 32]).ok().unwrap();
        let hash = FixedBytes([n.wrapping_mul(31); 32]);
        let signature = signer.sign_hash_sync(&hash).ok().unwrap();
        assert!(signature[64] == 27 || signature[64] == 28);
        assert_eq!(recover_address(&signature, &hash), Some(signer.address()));
        let other = FixedBytes([n.wrapping_mul(31).wrapping_add(1); 32]);
        assert_ne!(recover_address(&signature, &other), Some(signer.address()));
    }
}

#[test]
fn nothing_is_recovered_from_other_lengths() {
    let hash = FixedBytes([1u8; 32]);
    assert_eq!(recover_address(&[], &hash), None);
    assert_eq!(recover_address(&[0u8; 64], &hash), None);
    assert_eq!(recover_address(&[0u8; 65], &hash), None);
    assert_eq!(recover_address(&[27u8; 66], &hash), None);
}

#[test]
fn balance_is_more_than_nothing() {
    assert!(!has_balance(U256::from_u64(0)));
    assert!(has_balance(U256::from_u64(1)));
    assert!(has_balance(U256 { limbs: [0, 0, 0, 1] }));
    assert!(has_balance(U256 { limbs: [0, 1, 0, 0] }));
    assert!(has_balance(U256 { limbs: [u64::MAX; 4] }));
}

#[test]
fn addresses_from_bytes() {
    assert_eq!(Address::from_bytes(&[7u8; 20]), Some(Address([7u8; 20])));
    assert_eq!(Address::from_bytes(&[7u8; 19]), None);
    assert_eq!(Address::from_bytes(&[7u8; 21]), None);
    assert_eq!(Address([9u8; 20]).to_vec(), vec![9u8; 20]);
    assert_eq!(FixedBytes::from_bytes(&[7u8; 32]), Some(FixedBytes([7u8; 32])));
    assert_eq!(FixedBytes::from_bytes(&[7u8; 31]), None);
}
