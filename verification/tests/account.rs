use basictest::AccountId;

fn to_library(id: &ink_env::AccountId) -> AccountId {
    let bytes: &[u8; 32] = id.as_ref();
    AccountId::from(*bytes)
}

#[test]
fn default_identity_is_all_zero() {
    assert_eq!(AccountId::default(), AccountId([0u8; 32]));
    assert_eq!(AccountId::default().as_bytes(), &[0u8; 32]);
}

#[test]
fn from_keeps_the_bytes() {
    let mut bytes = [0u8; 32];
    for (i, b) in bytes.iter_mut().enumerate() {
        *b = i as u8;
    }
    let id = AccountId::from(bytes);
    assert_eq!(id.as_bytes(), &bytes);
    assert_eq!(id.0, bytes);
    assert_eq!(id, AccountId(bytes));
}

#[test]
fn identities_are_equal_when_all_bytes_are() {
    let a = AccountId([7u8; 32]);
    let b = AccountId([7u8; 32]);
    assert!(a == b);
    assert!(!(a != b));
    let copy = a;
    assert_eq!(copy, a);
}

#[test]
fn identities_differ_when_any_byte_does() {
    let base = AccountId([9u8; 32]);
    for i in 0..32 {
        let mut bytes = [9u8; 32];
        bytes[i] = 10;
        assert_ne!(AccountId(bytes), base);
        assert_ne!(base, AccountId(bytes));
    }
}

#[test]
fn identity_with_one_set_byte_is_not_the_default() {
    for i in 0..32 {
        let mut bytes = [0u8; 32];
        bytes[i] = 1;
        assert_ne!(AccountId(bytes), AccountId::default());
    }
}

#[test]
fn default_identity_matches_the_host_default() {
    assert_eq!(to_library(&ink_env::AccountId::default()), AccountId::default());
}

#[test]
fn host_test_accounts_convert_to_distinct_identities() {
    let accounts = ink_env::test::default_accounts::<ink_env::DefaultEnvironment>();
    let alice = to_library(&accounts.alice);
    let bob = to_library(&accounts.bob);
    assert_eq!(alice, AccountId([0x01; 32]));
    assert_eq!(bob, AccountId([0x02; 32]));
    assert_ne!(alice, bob);
    assert_eq!(alice == bob, accounts.alice == accounts.bob);
    assert_eq!(alice == alice, accounts.alice == accounts.alice);
    assert_eq!(ink_env::AccountId::from(*alice.as_bytes()), accounts.alice);
}
