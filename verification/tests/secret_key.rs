use glassmarlin::secrets::{reusable_secret, secret_from_entropy, MIN_SECRET_BYTES, OS_RANDOM_BYTES};

#[test]
fn long_secret_is_kept_trimmed() {
    let stored = format!("  {}\n", "k".repeat(40));
    assert_eq!(reusable_secret(&stored), Some("k".repeat(40)));
}

#[test]
fn short_secret_is_replaced() {
    assert_eq!(reusable_secret(&"k".repeat(31)), None);
    assert_eq!(reusable_secret(&format!("{}\n\n", "k".repeat(31))), None);
    assert_eq!(reusable_secret(""), None);
}

#[test]
fn threshold_is_exactly_thirty_two_bytes() {
    assert_eq!(MIN_SECRET_BYTES, 32);
    assert_eq!(reusable_secret(&"k".repeat(32)), Some("k".repeat(32)));
}

#[test]
fn threshold_counts_bytes_not_characters() {
    let euros11 = "\u{20ac}".repeat(11);
    assert_eq!(reusable_secret(&euros11), Some(euros11.clone()));
    let euros10 = "\u{20ac}".repeat(10);
    assert_eq!(reusable_secret(&euros10), None);
}

#[test]
fn random_bytes_are_forty_eight() {
    assert_eq!(OS_RANDOM_BYTES, 48);
}

#[test]
fn secret_from_zero_randomness() {
    assert_eq!(
        secret_from_entropy(1, 2, &[0u8; 48]),
        "d079494d96c97c24468dad5a2e3b740b860eff511d1a467f7d09fbd76d16018d"
    );
}

#[test]
fn secret_with_random_bytes() {
    let mut random = [0u8; 48];
    for (i, b) in random.iter_mut().enumerate() {
        *b = i as u8;
    }
    assert_eq!(
        secret_from_entropy(0x0102030405060708090a0b0c0d0e0f10, 4242, &random),
        "5f41927ce1c6ae792ef2e13327d8d3761db36203eb687876d0499bddc644923b"
    );
}

#[test]
fn random_bytes_change_the_secret() {
    let mut random = [7u8; 48];
    let a = secret_from_entropy(5, 6, &random);
    random[47] = 8;
    let b = secret_from_entropy(5, 6, &random);
    assert_ne!(a, b);
}

#[test]
fn generated_secret_survives_restart() {
    let s = secret_from_entropy(987654321, 77, &[9u8; 48]);
    assert_eq!(s.len(), 64);
    assert!(s.chars().all(|c| c.is_ascii_hexdigit() && !c.is_ascii_uppercase()));
    assert_eq!(reusable_secret(&s), Some(s.clone()));
    assert_eq!(reusable_secret(&format!("{s}\n")), Some(s));
}
