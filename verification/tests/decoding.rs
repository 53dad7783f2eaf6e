use kse_launcher::utf16::decode_home_buffer;
use kse_launcher::utf16::decode_utf16_lossy;
use kse_launcher::utf16::REPLACEMENT_CHARACTER;

#[test]
fn plain_ascii_units_decode_to_themselves() {
    let units: Vec<u16> = "C:\\Java17".encode_utf16().collect();
    assert_eq!(decode_utf16_lossy(&units), "C:\\Java17");
}

#[test]
fn empty_input_decodes_to_empty_string() {
    let units: Vec<u16> = Vec::new();
    assert_eq!(decode_utf16_lossy(&units), "");
}

#[test]
fn surrogate_pair_decodes_to_one_character() {
    // U+1D11E (musical symbol G clef) is encoded as the pair D834 DD1E.
    let units: Vec<u16> = vec![0xD834, 0xDD1E];
    assert_eq!(decode_utf16_lossy(&units), "\u{1D11E}");
}

#[test]
fn unpaired_high_surrogate_becomes_replacement_character() {
    let units: Vec<u16> = vec![0x0041, 0xD834, 0x0042];
    let expected: String = vec!['A', REPLACEMENT_CHARACTER, 'B'].into_iter().collect();
    assert_eq!(decode_utf16_lossy(&units), expected);
}

#[test]
fn unpaired_low_surrogate_becomes_replacement_character() {
    let units: Vec<u16> = vec![0xDD1E, 0x0058];
    let expected: String = vec![REPLACEMENT_CHARACTER, 'X'].into_iter().collect();
    assert_eq!(decode_utf16_lossy(&units), expected);
}

#[test]
fn high_surrogate_at_end_becomes_replacement_character() {
    let units: Vec<u16> = vec![0x0041, 0xD834];
    let expected: String = vec!['A', REPLACEMENT_CHARACTER].into_iter().collect();
    assert_eq!(decode_utf16_lossy(&units), expected);
}

#[test]
fn bmp_boundaries_decode_exactly() {
    let units: Vec<u16> = vec![0x0000, 0xD7FF, 0xE000, 0xFFFF];
    let expected: String =
        vec!['\u{0}', '\u{D7FF}', '\u{E000}', '\u{FFFF}'].into_iter().collect();
    assert_eq!(decode_utf16_lossy(&units), expected);
}

#[test]
fn home_buffer_loses_only_its_terminator() {
    let mut units: Vec<u16> = "C:\\Program Files\\Java\\jdk-17".encode_utf16().collect();
    units.push(0);
    assert_eq!(decode_home_buffer(&units), "C:\\Program Files\\Java\\jdk-17");
}

#[test]
fn home_buffer_of_one_zero_unit_is_empty() {
    let units: Vec<u16> = vec![0];
    assert_eq!(decode_home_buffer(&units), "");
}

#[test]
fn empty_home_buffer_is_empty() {
    let units: Vec<u16> = Vec::new();
    assert_eq!(decode_home_buffer(&units), "");
}

#[test]
fn home_buffer_keeps_non_terminal_zero_units() {
    let units: Vec<u16> = vec![0x0041, 0x0000, 0x0042, 0x0000];
    let expected: String = vec!['A', '\u{0}', 'B'].into_iter().collect();
    assert_eq!(decode_home_buffer(&units), expected);
}
