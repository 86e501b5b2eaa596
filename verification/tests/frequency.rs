use quantum_soft::frequency::{frequency_indices, wrapped_frequency_index};

#[test]
fn wrapped_index_even_grid() {
    let n = 8;
    let expected: Vec<i64> = vec![0, 1, 2, 3, -4, -3, -2, -1];
    for j in 0..n {
        assert_eq!(wrapped_frequency_index(j, n), expected[j]);
    }
    assert_eq!(frequency_indices(n), expected);
}

#[test]
fn wrapped_index_odd_grid() {
    // n / 2 == 2: slot 2 already stands for a negative wave number.
    assert_eq!(frequency_indices(5), vec![0, 1, -3, -2, -1]);
}

#[test]
fn wrapped_index_small_grids() {
    assert_eq!(frequency_indices(0), Vec::<i64>::new());
    assert_eq!(frequency_indices(1), vec![-1]);
    assert_eq!(frequency_indices(2), vec![0, -1]);
}

#[test]
fn wrapped_index_simulation_grid() {
    let n = 1 << 12;
    let ks = frequency_indices(n);
    assert_eq!(ks.len(), n);
    assert_eq!(ks[0], 0);
    assert_eq!(ks[2047], 2047);
    assert_eq!(ks[2048], -2048);
    assert_eq!(ks[4095], -1);
}

#[test]
fn wrapped_index_is_an_alias_of_the_slot() {
    for n in 1..40usize {
        let ks = frequency_indices(n);
        let mut seen = Vec::new();
        for j in 0..n {
            let k = ks[j];
            assert_eq!((k - j as i64).rem_euclid(n as i64), 0);
            assert!((n / 2) as i64 - n as i64 <= k && k < (n / 2) as i64);
            assert!(!seen.contains(&k));
            seen.push(k);
            let slot = if k < 0 { k + n as i64 } else { k };
            assert_eq!(slot, j as i64);
        }
    }
}

#[test]
fn wrapped_index_smallest_alias_on_even_grid() {
    let n = 6i64;
    let ks = frequency_indices(6);
    for j in 0..6usize {
        for q in -3..=3i64 {
            assert!(ks[j].abs() <= (ks[j] + q * n).abs());
        }
    }
    // On an odd grid the alias 2 of slot 2 is smaller than the wave number -3.
    assert_eq!(wrapped_frequency_index(2, 5), -3);
}
