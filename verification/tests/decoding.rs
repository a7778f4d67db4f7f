use linux_max6675::is_open;
use linux_max6675::parse_quarter_celsius;
use linux_max6675::quarters_from_word;
use linux_max6675::Error;

#[test]
fn open_bit_decides_is_open() {
    for w in [0x0004u16, 0x0005, 0x0007, 0x0194, 0xFFFF] {
        assert!(is_open(w));
    }
    for w in [0x0000u16, 0x0003, 0x0190, 0x7FF8, 0xFFFB] {
        assert!(!is_open(w));
    }
}

#[test]
fn magnitude_matches_formula_and_range() {
    for w in [0u16, 1, 7, 8, 0x0190, 0x7FF8, 0x8190, 0xFFFF] {
        let q = parse_quarter_celsius(w);
        assert_eq!(q, (w >> 3) & 0x0FFF);
        let celsius = q as f64 * 0.25;
        assert!(celsius >= 0.0);
        assert!(celsius <= 1023.75);
    }
}

#[test]
fn decoding_is_deterministic() {
    for w in [0x0000u16, 0x0004, 0x0190, 0xFFFF] {
        assert_eq!(is_open(w), is_open(w));
        assert_eq!(parse_quarter_celsius(w), parse_quarter_celsius(w));
    }
}

#[test]
fn word_0x0190_reads_12_5_celsius() {
    assert!(!is_open(0x0190));
    let q = parse_quarter_celsius(0x0190);
    assert_eq!(q, 50);
    assert_eq!(q as f64 * 0.25, 12.5);
    assert!(matches!(quarters_from_word(0x0190), Ok(50)));
}

#[test]
fn max_word_reads_1023_75_celsius() {
    assert!(!is_open(0x7FF8));
    let q = parse_quarter_celsius(0x7FF8);
    assert_eq!(q, 4095);
    assert_eq!(q as f64 * 0.25, 1023.75);
    assert!(matches!(quarters_from_word(0x7FF8), Ok(4095)));
}

#[test]
fn open_circuit_word_never_yields_a_value() {
    assert!(is_open(0x0004));
    assert!(matches!(quarters_from_word(0x0004), Err(Error::OpenCircuit)));
}

#[test]
fn mask_drops_sign_id_and_tristate_bits() {
    // D15, D1 and D0 set on top of the same magnitude must not change it.
    assert_eq!(parse_quarter_celsius(0x8193), parse_quarter_celsius(0x0190));
    assert_eq!(parse_quarter_celsius(0x8193), 50);
}
