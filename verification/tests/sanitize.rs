use ascii_fixer::ascii::remove_non_ascii;
use ascii_fixer::ascii::sanitize;
use ascii_fixer::ascii::sanitize_byte;

fn allowed(b: u8) -> bool {
    b == 0x09 || b == 0x0A || (0x20..=0x7E).contains(&b)
}

fn every_byte() -> Vec<u8> {
    (0u8..=255).collect()
}

#[test]
fn accented_letter_and_delete_become_spaces() {
    let input = [0x41, 0xC3, 0xA9, 0x0A, 0x09, 0x7F];
    assert_eq!(sanitize(&input), vec![0x41, 0x20, 0x20, 0x0A, 0x09, 0x20]);
    assert_eq!(remove_non_ascii(&input), "A  \n\t ");
}

#[test]
fn empty_input_gives_empty_output() {
    assert_eq!(sanitize(&[]), Vec::<u8>::new());
    assert_eq!(remove_non_ascii(&[]), "");
}

#[test]
fn edges_of_the_allowed_ranges() {
    assert_eq!(sanitize_byte(0x00), 0x20);
    assert_eq!(sanitize_byte(0x08), 0x20);
    assert_eq!(sanitize_byte(0x09), 0x09);
    assert_eq!(sanitize_byte(0x0A), 0x0A);
    assert_eq!(sanitize_byte(0x0B), 0x20);
    assert_eq!(sanitize_byte(0x0D), 0x20);
    assert_eq!(sanitize_byte(0x1F), 0x20);
    assert_eq!(sanitize_byte(0x20), 0x20);
    assert_eq!(sanitize_byte(0x21), 0x21);
    assert_eq!(sanitize_byte(0x7E), 0x7E);
    assert_eq!(sanitize_byte(0x7F), 0x20);
    assert_eq!(sanitize_byte(0x80), 0x20);
    assert_eq!(sanitize_byte(0xFF), 0x20);
}

#[test]
fn every_byte_value_follows_the_rule() {
    for b in every_byte() {
        let expected = if allowed(b) { b } else { 0x20 };
        assert_eq!(sanitize_byte(b), expected);
        assert_eq!(sanitize(&[b]), vec![expected]);
    }
}

#[test]
fn length_is_kept() {
    assert_eq!(sanitize(&every_byte()).len(), 256);
    assert_eq!(sanitize(&[0xFF; 1000]).len(), 1000);
    assert_eq!(remove_non_ascii(&every_byte()).len(), 256);
    assert_eq!(remove_non_ascii(&every_byte()).chars().count(), 256);
}

#[test]
fn cleaning_twice_changes_nothing_more() {
    let once = sanitize(&every_byte());
    assert_eq!(sanitize(&once), once);
    let text = b"caf\xC3\xA9\r\n\tna\xEFve\x00";
    let once = sanitize(text);
    assert_eq!(once, b"caf   \n\tna ve ".to_vec());
    assert_eq!(sanitize(&once), once);
}

#[test]
fn output_holds_allowed_bytes_only() {
    for b in sanitize(&every_byte()) {
        assert!(allowed(b));
    }
}

#[test]
fn clean_input_comes_back_unchanged() {
    let clean: Vec<u8> = every_byte().into_iter().filter(|b| allowed(*b)).collect();
    assert_eq!(clean.len(), 97);
    assert_eq!(sanitize(&clean), clean);
    let source = b"fn main() {\n\tprintln!(\"~\");\n}\n";
    assert_eq!(sanitize(source), source.to_vec());
    assert_eq!(remove_non_ascii(source).as_bytes(), source);
}

#[test]
fn output_always_decodes() {
    let cleaned = sanitize(&every_byte());
    assert!(cleaned.is_ascii());
    let decoded = String::from_utf8(cleaned.clone()).unwrap();
    assert_eq!(decoded.as_bytes(), cleaned.as_slice());
    assert_eq!(remove_non_ascii(&every_byte()).into_bytes(), cleaned);
}

#[test]
fn text_has_the_cleaned_bytes() {
    let broken = [0xE2, 0x82, b'x', 0xF0, 0x9F, 0x98, 0x80, b'\n'];
    assert_eq!(remove_non_ascii(&broken), "  x    \n");
    assert_eq!(remove_non_ascii(&broken).into_bytes(), sanitize(&broken));
}
