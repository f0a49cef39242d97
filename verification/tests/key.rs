use anchor_programs::key::{byte_seed, bytes32_eq, text_seed, Pubkey};
use anchor_programs::text::u32_to_decimal;

#[test]
fn pubkey_equality_is_bytewise() {
    let a = Pubkey::new_from_array([3; 32]);
    let mut bytes = [3; 32];
    bytes[31] = 4;
    let b = Pubkey::new_from_array(bytes);
    assert!(a == a);
    assert!(a != b);
    assert_eq!(b.to_bytes(), bytes);
    assert_eq!(b.as_seed(), bytes.to_vec());
    assert!(bytes32_eq(&[9; 32], &[9; 32]));
    assert!(!bytes32_eq(&[9; 32], &bytes));
    assert_eq!(Pubkey::default(), Pubkey::new_from_array([0; 32]));
}

#[test]
fn seeds() {
    assert_eq!(text_seed("vault"), vec![118, 97, 117, 108, 116]);
    assert_eq!(byte_seed(255), vec![255]);
}

#[test]
fn decimal_text() {
    for n in [0u32, 7, 9, 10, 99, 100, 1000000, u32::MAX] {
        assert_eq!(u32_to_decimal(n), n.to_string());
    }
}
