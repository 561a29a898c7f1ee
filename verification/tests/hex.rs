use hex::FromHexError;
use poseidon_common::PoseidonError;

#[test]
fn decoding_0g_names_the_character_and_its_index() {
    let native = hex::decode("0g").unwrap_err();
    assert_eq!(
        PoseidonError::from(native),
        PoseidonError::InvalidHexCharacter { c: "g".to_string(), index: 1 }
    );
}

#[test]
fn decoding_abc_is_of_odd_length() {
    let native = hex::decode("abc").unwrap_err();
    assert_eq!(PoseidonError::from(native), PoseidonError::OddLength);
}

#[test]
fn decoding_abcd_into_one_byte_is_a_length_mismatch() {
    let mut target = [0u8; 1];
    let native = hex::decode_to_slice("abcd", &mut target).unwrap_err();
    assert_eq!(PoseidonError::from(native), PoseidonError::InvalidStringLength);
}

#[test]
fn the_character_and_the_index_are_kept() {
    let native = FromHexError::InvalidHexCharacter { c: 'x', index: 3 };
    match PoseidonError::from(native) {
        PoseidonError::InvalidHexCharacter { c, index } => {
            assert_eq!(c, "x");
            assert_eq!(index, 3);
        }
        other => panic!("expected the invalid character, got {:?}", other),
    }
}

#[test]
fn a_character_of_several_bytes_is_kept_whole() {
    let native = FromHexError::InvalidHexCharacter { c: 'é', index: usize::MAX };
    assert_eq!(
        PoseidonError::from(native),
        PoseidonError::InvalidHexCharacter { c: "é".to_string(), index: usize::MAX }
    );
}

#[test]
fn the_three_hex_errors_have_three_variants() {
    let a = PoseidonError::from(FromHexError::InvalidHexCharacter { c: 'g', index: 0 });
    let b = PoseidonError::from(FromHexError::OddLength);
    let c = PoseidonError::from(FromHexError::InvalidStringLength);
    assert_ne!(a.rank_value(), b.rank_value());
    assert_ne!(a.rank_value(), c.rank_value());
    assert_ne!(b.rank_value(), c.rank_value());
}
