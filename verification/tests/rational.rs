use mxfinfo::rational::{compare_length, convert_length, MXFRational};

#[test]
fn converting_to_the_same_rate_keeps_the_length() {
    let rates = [
        MXFRational::new(25, 1),
        MXFRational::new(30000, 1001),
        MXFRational::new(-48000, 1),
        MXFRational::new(1, -7),
        MXFRational::new(i32::MAX, i32::MIN),
    ];
    let lengths = [0i64, 1, -1, 49, 179999, i64::MAX, i64::MIN, 1 << 53, (1 << 53) + 1];
    for rate in rates.iter() {
        for length in lengths.iter() {
            assert_eq!(convert_length(rate, rate, *length), *length);
        }
    }
}

#[test]
fn a_length_compared_with_itself_is_equal() {
    let rate = MXFRational::new(30000, 1001);
    for length in [0i64, 1, -5, 49, i64::MAX, i64::MIN] {
        assert_eq!(compare_length(&rate, length, &rate, length), 0);
    }
}

#[test]
fn doubling_the_rate_doubles_the_length() {
    let a = MXFRational::new(25, 1);
    let b = MXFRational::new(50, 1);
    assert_eq!(convert_length(&b, &a, 25), 50);
    assert_eq!(convert_length(&a, &b, 50), 25);
}

#[test]
fn conversion_rounds_halves_upwards() {
    let one = MXFRational::new(1, 1);
    let two = MXFRational::new(2, 1);
    let three = MXFRational::new(3, 1);
    // 3 / 2 = 1.5
    assert_eq!(convert_length(&one, &two, 3), 2);
    // 1 / 2 = 0.5
    assert_eq!(convert_length(&one, &two, 1), 1);
    // 1 / 3 and 2 / 3
    assert_eq!(convert_length(&one, &three, 1), 0);
    assert_eq!(convert_length(&one, &three, 2), 1);
    // -3 / 2 = -1.5 goes up to -1, -5 / 3 goes to -2
    assert_eq!(convert_length(&one, &two, -3), -1);
    assert_eq!(convert_length(&one, &three, -5), -2);
    assert_eq!(convert_length(&one, &three, -4), -1);
}

#[test]
fn conversion_takes_signs_of_both_rates() {
    let minus_two = MXFRational::new(-2, 1);
    let one_over_minus_one = MXFRational::new(1, -1);
    let one = MXFRational::new(1, 1);
    // 3 * 1 / -2 = -1.5
    assert_eq!(convert_length(&one, &minus_two, 3), -1);
    // 3 * (1 / -1) / 1 = -3
    assert_eq!(convert_length(&one_over_minus_one, &one, 3), -3);
    // 3 * (1 / -1) / -2 = 1.5
    assert_eq!(convert_length(&one_over_minus_one, &minus_two, 3), 2);
}

#[test]
fn conversion_between_film_and_video_rates() {
    let ntsc = MXFRational::new(30000, 1001);
    let pal = MXFRational::new(25, 1);
    let audio = MXFRational::new(48000, 1);
    // 1001 frames at 30000/1001 last 1001 * 1001 / 30000 s = 33.4 s: 835.0 frames at 25
    assert_eq!(convert_length(&pal, &ntsc, 1001), 835);
    // 49 frames at 25 are 94080 samples at 48000
    assert_eq!(convert_length(&audio, &pal, 49), 94080);
    assert_eq!(convert_length(&pal, &audio, 94080), 49);
}

#[test]
fn conversion_stays_within_range() {
    let fast = MXFRational::new(i32::MAX, 1);
    let one = MXFRational::new(1, 1);
    assert_eq!(convert_length(&fast, &one, i64::MAX), i64::MAX);
    assert_eq!(convert_length(&fast, &one, i64::MIN), i64::MIN);
    assert_eq!(convert_length(&fast, &one, 0), 0);
    assert_eq!(convert_length(&fast, &one, 2), 2 * i32::MAX as i64);
}

#[test]
fn a_zero_numerator_of_the_target_gives_zero() {
    let zero = MXFRational::new(0, 1);
    let one = MXFRational::new(1, 1);
    assert_eq!(convert_length(&zero, &one, 12345), 0);
}

#[test]
fn comparison_tells_the_longer_length() {
    let pal = MXFRational::new(25, 1);
    let fast = MXFRational::new(50, 1);
    // 100 at 50 is 50 at 25
    assert_eq!(compare_length(&pal, 50, &fast, 100), 0);
    assert_eq!(compare_length(&pal, 51, &fast, 100), 1);
    assert_eq!(compare_length(&pal, 40, &fast, 100), -10);
    assert_eq!(compare_length(&pal, 0, &fast, 49), -25);
}

#[test]
fn comparison_stays_within_range() {
    let one = MXFRational::new(1, 1);
    assert_eq!(compare_length(&one, i64::MAX, &one, i64::MIN), i64::MAX);
    assert_eq!(compare_length(&one, i64::MIN, &one, i64::MAX), i64::MIN);
}

#[test]
fn rates_round_to_the_nearest_integer() {
    assert_eq!(MXFRational::new(30000, 1001).rounded(), 30);
    assert_eq!(MXFRational::new(24000, 1001).rounded(), 24);
    assert_eq!(MXFRational::new(25, 1).rounded(), 25);
    assert_eq!(MXFRational::new(25, 2).rounded(), 13);
    assert_eq!(MXFRational::new(-25, 2).rounded(), -12);
    assert_eq!(MXFRational::new(25, -2).rounded(), -12);
    assert_eq!(MXFRational::new(i32::MIN, 1).rounded(), i32::MIN as i64);
    assert_eq!(MXFRational::new(i32::MIN, -1).rounded(), -(i32::MIN as i64));
}

#[test]
fn a_rate_has_neither_part_zero() {
    assert!(MXFRational::new(25, 1).is_rate());
    assert!(MXFRational::new(-25, -1).is_rate());
    assert!(!MXFRational::new(0, 1).is_rate());
    assert!(!MXFRational::new(25, 0).is_rate());
    assert_eq!(MXFRational::default(), MXFRational::new(0, 0));
}

#[test]
fn a_rational_is_kept_as_given() {
    let r = MXFRational::new(50, 2);
    assert_eq!(r.numerator, 50);
    assert_eq!(r.denominator, 2);
    assert_ne!(r, MXFRational::new(25, 1));
}
