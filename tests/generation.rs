use secure_string::{
    build_alphabet, compose_secret, generate_secure_string, RandError, MAX_ALLOWED_LENGTH,
    MIN_REQUIRED_LENGTH,
};

const LETTERS: &str = "abcdefghijklmnopqrstuvwxyzABCDEFGHIJKLMNOPQRSTUVWXYZ";
const DIGITS: &str = "0123456789";
const SPECIALS: &str = "!@#$%^&*()-_=+[]{}|;:,.<>?";

#[test]
fn test_min_length_enforcement() {
    let result = generate_secure_string(true, true, 19);
    assert!(matches!(result, Err(RandError::LengthTooShort(19, 20))));
}

#[test]
fn test_valid_generation() {
    let result = generate_secure_string(true, true, 24);
    assert!(result.is_ok());
    let s = result.unwrap();
    assert_eq!(s.len(), 24);
    println!("Generated: {}", s);
}

#[test]
fn every_short_length_is_rejected() {
    for length in 0..MIN_REQUIRED_LENGTH {
        assert_eq!(
            generate_secure_string(false, false, length),
            Err(RandError::LengthTooShort(length, 20))
        );
    }
}

#[test]
fn long_lengths_are_rejected() {
    for length in [65usize, 66, 100, 1000, usize::MAX] {
        assert_eq!(
            generate_secure_string(true, true, length),
            Err(RandError::LengthExceeded(length, 64))
        );
    }
}

#[test]
fn every_allowed_length_is_met() {
    for length in MIN_REQUIRED_LENGTH..=MAX_ALLOWED_LENGTH {
        let s = generate_secure_string(true, false, length).unwrap();
        assert_eq!(s.chars().count(), length);
    }
}

#[test]
fn shortest_letters_only() {
    let s = generate_secure_string(false, false, 20).unwrap();
    assert_eq!(s.len(), 20);
    assert!(s.chars().all(|c| LETTERS.contains(c)));
}

#[test]
fn too_short_with_all_classes() {
    assert_eq!(generate_secure_string(true, true, 19), Err(RandError::LengthTooShort(19, 20)));
}

#[test]
fn too_long_with_digits() {
    assert_eq!(generate_secure_string(true, false, 65), Err(RandError::LengthExceeded(65, 64)));
}

#[test]
fn longest_letters_and_specials() {
    let s = generate_secure_string(false, true, 64).unwrap();
    assert_eq!(s.len(), 64);
    assert!(s.chars().all(|c| LETTERS.contains(c) || SPECIALS.contains(c)));
}

#[test]
fn letters_only_over_many_calls() {
    for _ in 0..50 {
        let s = generate_secure_string(false, false, 64).unwrap();
        assert!(s.chars().all(|c| c.is_ascii_alphabetic()));
    }
}

#[test]
fn digits_stay_with_digits_enabled() {
    for _ in 0..50 {
        let s = generate_secure_string(true, false, 64).unwrap();
        assert!(s.chars().all(|c| LETTERS.contains(c) || DIGITS.contains(c)));
    }
}

#[test]
fn repeated_calls_differ() {
    let a = generate_secure_string(true, true, 32).unwrap();
    let b = generate_secure_string(true, true, 32).unwrap();
    let c = generate_secure_string(true, true, 32).unwrap();
    assert_ne!(a, b);
    assert_ne!(b, c);
    assert_ne!(a, c);
}

#[test]
fn draws_are_roughly_uniform() {
    let alphabet: Vec<char> = build_alphabet(true, true);
    let mut counts = vec![0u64; alphabet.len()];
    let mut total: u64 = 0;
    while total < 12800 {
        let s = generate_secure_string(true, true, 64).unwrap();
        for c in s.chars() {
            let k = alphabet.iter().position(|&a| a == c).unwrap();
            counts[k] += 1;
            total += 1;
        }
    }
    let expected = total as f64 / alphabet.len() as f64;
    let chi2: f64 = counts
        .iter()
        .map(|&n| {
            let d = n as f64 - expected;
            d * d / expected
        })
        .sum();
    // 87 degrees of freedom: a uniform draw stays below this bound but for
    // a vanishing fraction of runs.
    assert!(chi2 < 160.0, "chi-squared {}", chi2);
    assert!(counts.iter().all(|&n| n > 0));
}

#[test]
fn alphabet_of_each_request() {
    let all: String = build_alphabet(true, true).into_iter().collect();
    assert_eq!(all, format!("{}{}{}", LETTERS, DIGITS, SPECIALS));
    let letters: String = build_alphabet(false, false).into_iter().collect();
    assert_eq!(letters, LETTERS);
    let with_specials: String = build_alphabet(false, true).into_iter().collect();
    assert_eq!(with_specials, format!("{}{}", LETTERS, SPECIALS));
    let with_digits: String = build_alphabet(true, false).into_iter().collect();
    assert_eq!(with_digits, format!("{}{}", LETTERS, DIGITS));
}

#[test]
fn alphabet_has_no_duplicates() {
    let mut all = build_alphabet(true, true);
    let n = all.len();
    all.sort();
    all.dedup();
    assert_eq!(all.len(), n);
}

#[test]
fn indices_select_alphabet_characters() {
    let alphabet = build_alphabet(true, true);
    let s = compose_secret(&alphabet, &vec![0, 25, 26, 51, 52, 61, 62, 87, 0]);
    assert_eq!(s, "azAZ09!?a");
}

#[test]
fn no_indices_give_empty_string() {
    let alphabet = build_alphabet(false, false);
    assert_eq!(compose_secret(&alphabet, &Vec::new()), "");
}
