use guarded_registry::utils::ToU16Vec;

#[test]
fn ascii_gets_one_unit_per_char_and_a_nul() {
    assert_eq!("AB".to_u16_vec(), vec![65u16, 66, 0]);
}

#[test]
fn empty_string_is_just_the_nul() {
    assert_eq!("".to_u16_vec(), vec![0u16]);
}

#[test]
fn device_path_round_trips_through_std_encoding() {
    let s = "\\Device\\WdkMutexTest";
    let mut expected: Vec<u16> = s.encode_utf16().collect();
    expected.push(0);
    assert_eq!(s.to_u16_vec(), expected);
}

#[test]
fn bmp_char_is_a_single_unit() {
    assert_eq!("\u{20AC}".to_u16_vec(), vec![0x20ACu16, 0]);
}

#[test]
fn astral_char_becomes_a_surrogate_pair() {
    assert_eq!("\u{1D11E}".to_u16_vec(), vec![0xD834u16, 0xDD1E, 0]);
}

#[test]
fn mixed_string_matches_std_encoding() {
    let s = "a\u{20AC}\u{10348}z";
    let mut expected: Vec<u16> = s.encode_utf16().collect();
    expected.push(0);
    assert_eq!(s.to_u16_vec(), expected);
}
