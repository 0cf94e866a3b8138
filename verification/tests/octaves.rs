use planet_scene::octaves::{
    default_octaves, keeps_orientation, weight_budget, Octave, BASE_FREQUENCY, WEIGHT_UNIT,
};

#[test]
fn tuning_constants() {
    assert_eq!(BASE_FREQUENCY, 5);
    assert_eq!(WEIGHT_UNIT, 100);
}

#[test]
fn default_table_values() {
    assert_eq!(
        default_octaves(),
        vec![
            Octave { harmonic: 1, weight: 20 },
            Octave { harmonic: 3, weight: 5 },
            Octave { harmonic: 10, weight: 1 },
        ]
    );
}

#[test]
fn default_table_frequencies() {
    let freqs: Vec<Option<u32>> =
        default_octaves().iter().map(|o| o.frequency(BASE_FREQUENCY)).collect();
    assert_eq!(freqs, vec![Some(5), Some(15), Some(50)]);
}

#[test]
fn frequency_that_does_not_fit() {
    let octave = Octave { harmonic: 2, weight: 1 };
    assert_eq!(octave.frequency(u32::MAX), None);
    assert_eq!(octave.frequency(0x7fff_ffff), Some(0xffff_fffe));
    assert_eq!(octave.frequency(0x8000_0000), None);
    assert_eq!(Octave { harmonic: 0, weight: 1 }.frequency(u32::MAX), Some(0));
}

#[test]
fn default_table_budget() {
    assert_eq!(weight_budget(&default_octaves()), Some(26));
    assert!(keeps_orientation(&default_octaves()));
}

#[test]
fn empty_table_budget() {
    assert_eq!(weight_budget(&Vec::new()), Some(0));
    assert!(keeps_orientation(&Vec::new()));
}

#[test]
fn budget_at_the_unit_does_not_keep_orientation() {
    let below = vec![Octave { harmonic: 1, weight: 60 }, Octave { harmonic: 2, weight: 39 }];
    let at = vec![Octave { harmonic: 1, weight: 60 }, Octave { harmonic: 2, weight: 40 }];
    assert_eq!(weight_budget(&below), Some(99));
    assert!(keeps_orientation(&below));
    assert_eq!(weight_budget(&at), Some(100));
    assert!(!keeps_orientation(&at));
}

#[test]
fn budget_that_does_not_fit() {
    let table = vec![
        Octave { harmonic: 1, weight: u32::MAX },
        Octave { harmonic: 2, weight: 1 },
        Octave { harmonic: 3, weight: 0 },
    ];
    assert_eq!(weight_budget(&table), None);
    assert!(!keeps_orientation(&table));
    let fits = vec![Octave { harmonic: 1, weight: u32::MAX - 1 }, Octave { harmonic: 2, weight: 1 }];
    assert_eq!(weight_budget(&fits), Some(u32::MAX));
}

#[test]
fn radial_numerator_stays_positive_at_the_extremes() {
    let table = default_octaves();
    let unit: i64 = 1000;
    for sign in [-1i64, 1] {
        let sum: i64 = table.iter().map(|o| o.weight as i64 * sign * unit).sum();
        let numerator = WEIGHT_UNIT as i64 * unit + sum;
        assert!(numerator > 0);
        assert_eq!(numerator, (100 + sign * 26) * unit);
    }
}
