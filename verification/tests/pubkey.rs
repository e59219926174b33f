use auton_program::pubkey::Pubkey;
use auton_program::pubkey::PUBKEY_BYTES;

#[test]
fn pubkey_round_trips_its_bytes() {
    let mut bytes = [0u8; 32];
    for (i, byte) in bytes.iter_mut().enumerate() {
        *byte = i as u8;
    }
    let key = Pubkey::new_from_array(bytes);
    assert_eq!(key.to_bytes(), bytes);
    assert_eq!(key.to_vec(), bytes.to_vec());
    assert_eq!(key.to_vec().len(), PUBKEY_BYTES);
}

#[test]
fn pubkeys_are_equal_when_all_bytes_are() {
    let a = Pubkey { bytes: [1u8; 32] };
    let b = Pubkey { bytes: [1u8; 32] };
    assert!(a == b);
    let mut last = [1u8; 32];
    last[31] = 2;
    assert!(a != Pubkey { bytes: last });
    let mut first = [1u8; 32];
    first[0] = 0;
    assert!(a != Pubkey { bytes: first });
}
