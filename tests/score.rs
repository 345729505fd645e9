use pwdlib_zxcvbn::{classify, match_score, Score};

#[test]
fn zero_and_one_guess_score_zero() {
    assert_eq!(classify(0), Score::ZERO);
    assert_eq!(classify(1), Score::ZERO);
}

#[test]
fn thousand_guesses_is_still_score_zero() {
    assert_eq!(classify(1_000), Score::ZERO);
    assert_eq!(classify(1_001), Score::ONE);
}

#[test]
fn band_bounds_are_inclusive() {
    assert_eq!(classify(1_000_000), Score::ONE);
    assert_eq!(classify(1_000_001), Score::TWO);
    assert_eq!(classify(100_000_000), Score::TWO);
    assert_eq!(classify(100_000_001), Score::THREE);
    assert_eq!(classify(10_000_000_000), Score::THREE);
    assert_eq!(classify(10_000_000_001), Score::FOUR);
    assert_eq!(classify(u64::MAX), Score::FOUR);
}

#[test]
fn score_never_drops_as_guesses_grow() {
    let mut previous = classify(1).value();
    let mut g: u64 = 1;
    while g < u64::MAX / 3 {
        let v = classify(g).value();
        assert!(v >= previous);
        assert!(v <= 4);
        previous = v;
        g = g * 3 + 1;
    }
}

#[test]
fn score_values_are_ordinals() {
    assert_eq!(Score::ZERO.value(), 0);
    assert_eq!(Score::ONE.value(), 1);
    assert_eq!(Score::TWO.value(), 2);
    assert_eq!(Score::THREE.value(), 3);
    assert_eq!(Score::FOUR.value(), 4);
}

#[test]
fn estimator_scores_map_one_for_one() {
    assert_eq!(match_score(zxcvbn::Score::Zero), Ok(Score::ZERO));
    assert_eq!(match_score(zxcvbn::Score::One), Ok(Score::ONE));
    assert_eq!(match_score(zxcvbn::Score::Two), Ok(Score::TWO));
    assert_eq!(match_score(zxcvbn::Score::Three), Ok(Score::THREE));
    assert_eq!(match_score(zxcvbn::Score::Four), Ok(Score::FOUR));
}
