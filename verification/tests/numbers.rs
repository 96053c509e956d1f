use exercises::numbers::{find_min_max, is_prime, string_length};

#[test]
fn string_length_counts_characters() {
    assert_eq!(string_length("hello"), 5);
    assert_eq!(string_length("\u{4f60}\u{597d}"), 2);
    assert_eq!(string_length(""), 0);
    assert_eq!(string_length("a\u{e9}\u{1f980}"), 3);
}

#[test]
fn min_max_of_several() {
    assert_eq!(find_min_max(&[1, 5, 3, 8, 2]), (1, 8));
    assert_eq!(find_min_max(&[8, 5, 3, 1]), (1, 8));
    assert_eq!(find_min_max(&[-4, -9, -1]), (-9, -1));
    assert_eq!(find_min_max(&[i32::MAX, i32::MIN, 0]), (i32::MIN, i32::MAX));
}

#[test]
fn min_max_of_one() {
    assert_eq!(find_min_max(&[7]), (7, 7));
}

#[test]
fn min_max_with_repeats() {
    assert_eq!(find_min_max(&[2, 2, 2]), (2, 2));
    assert_eq!(find_min_max(&[3, 1, 3, 1]), (1, 3));
}

#[test]
fn primes_are_recognised() {
    assert_eq!(is_prime(17), Ok(true));
    assert_eq!(is_prime(2), Ok(true));
    assert_eq!(is_prime(3), Ok(true));
    assert_eq!(is_prime(5), Ok(true));
    assert_eq!(is_prime(7919), Ok(true));
    assert_eq!(is_prime(i32::MAX), Ok(true));
}

#[test]
fn composites_are_recognised() {
    assert_eq!(is_prime(4), Ok(false));
    assert_eq!(is_prime(9), Ok(false));
    assert_eq!(is_prime(25), Ok(false));
    assert_eq!(is_prime(49), Ok(false));
    assert_eq!(is_prime(7917), Ok(false));
    assert_eq!(is_prime(2_147_395_600), Ok(false));
    assert_eq!(is_prime(i32::MAX - 1), Ok(false));
}

#[test]
fn zero_and_one_are_not_prime() {
    assert_eq!(is_prime(0), Ok(false));
    assert_eq!(is_prime(1), Ok(false));
}

#[test]
fn negative_numbers_are_turned_away() {
    assert!(is_prime(-5).is_err());
    assert_eq!(is_prime(-1), Err("Negative numbers cannot be prime".to_string()));
    assert_eq!(is_prime(i32::MIN), Err("Negative numbers cannot be prime".to_string()));
}

#[test]
fn primes_below_thirty() {
    let mut found = Vec::new();
    for n in 0..30 {
        if is_prime(n) == Ok(true) {
            found.push(n);
        }
    }
    assert_eq!(found, vec![2, 3, 5, 7, 11, 13, 17, 19, 23, 29]);
}
