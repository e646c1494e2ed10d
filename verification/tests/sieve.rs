use sieve_fanout::sieve::basic_sieve;
use sieve_fanout::text::to_lower_byte;

#[test]
fn primes_up_to_small_limits() {
    assert_eq!(basic_sieve(1), Vec::<usize>::new());
    assert_eq!(basic_sieve(2), vec![2]);
    assert_eq!(basic_sieve(3), vec![2, 3]);
    assert_eq!(basic_sieve(4), vec![2, 3]);
    assert_eq!(basic_sieve(10), vec![2, 3, 5, 7]);
    assert_eq!(basic_sieve(25), vec![2, 3, 5, 7, 11, 13, 17, 19, 23]);
    assert_eq!(basic_sieve(29), vec![2, 3, 5, 7, 11, 13, 17, 19, 23, 29]);
}

#[test]
fn primes_up_to_larger_limits() {
    let hundred = basic_sieve(100);
    assert_eq!(hundred.len(), 25);
    assert_eq!(*hundred.last().unwrap(), 97);
    let many = basic_sieve(100000);
    assert_eq!(many.len(), 9592);
    assert_eq!(*many.last().unwrap(), 99991);
    assert!(many.windows(2).all(|w| w[0] < w[1]));
}

#[test]
fn upper_case_letters_are_folded() {
    assert_eq!(to_lower_byte(b'A'), b'a');
    assert_eq!(to_lower_byte(b'Z'), b'z');
    assert_eq!(to_lower_byte(b'q'), b'q');
    assert_eq!(to_lower_byte(b'7'), b'7');
    assert_eq!(to_lower_byte(b'@'), b'@');
    assert_eq!(to_lower_byte(b'['), b'[');
}
