use cable_sizing::conduit::{get_conduit_data, recommend_conduit, Percent, CONDUITS, NEEDS_LARGER};

#[test]
fn catalogue_lists_ten_conduits_ascending() {
    let data = get_conduit_data();
    assert_eq!(data.len(), 10);
    assert_eq!(data[0], ("C16 (16mm)", 15_800));
    assert_eq!(data[1], ("C22 (22mm)", 21_000));
    assert_eq!(data[2], ("C28 (28mm)", 26_600));
    assert_eq!(data[3], ("C36 (36mm)", 35_000));
    assert_eq!(data[4], ("C42 (42mm)", 41_000));
    assert_eq!(data[5], ("C54 (54mm)", 53_000));
    assert_eq!(data[6], ("C70 (70mm)", 69_000));
    assert_eq!(data[7], ("C82 (82mm)", 80_000));
    assert_eq!(data[8], ("C92 (92mm)", 89_000));
    assert_eq!(data[9], ("C104 (104mm)", 101_000));
    assert_eq!(data, CONDUITS.to_vec());
    for pair in data.windows(2) {
        assert!(pair[0].1 < pair[1].1);
    }
}

#[test]
fn smallest_conduit_within_a_third_is_recommended() {
    // a third of C16 (15.8 mm across) holds 82 381 200 units, not one more
    let (name, fill) = recommend_conduit(82_381_200);
    assert_eq!(name, "C16 (16mm)");
    assert_eq!(fill, Percent { numerator: 8_238_120_000, denominator: 249_640_000 });
    assert_eq!(fill.rounded_tenths(), 330);
    let (name, fill) = recommend_conduit(82_381_201);
    assert_eq!(name, "C22 (22mm)");
    assert_eq!(fill, Percent { numerator: 8_238_120_100, denominator: 441_000_000 });
    assert_eq!(fill.rounded_tenths(), 187);
}

#[test]
fn nothing_to_pull_fits_the_narrowest_conduit() {
    let (name, fill) = recommend_conduit(0);
    assert_eq!(name, "C16 (16mm)");
    assert_eq!(fill, Percent { numerator: 0, denominator: 249_640_000 });
    assert_eq!(fill.rounded_tenths(), 0);
}

#[test]
fn each_conduit_is_recommended_up_to_its_third() {
    for (i, (name, inner)) in CONDUITS.iter().enumerate() {
        let area = *inner as u128 * *inner as u128;
        let most = area * 33 / 100;
        let (chosen, fill) = recommend_conduit(most);
        assert_eq!(chosen, *name);
        assert_eq!(fill.denominator as u128, area);
        assert_eq!(fill.numerator as u128, 100 * most);
        assert!(fill.numerator as u128 * 100 <= 33 * 100 * area);
        let (next, _) = recommend_conduit(most + 1);
        if i + 1 < CONDUITS.len() {
            assert_eq!(next, CONDUITS[i + 1].0);
        } else {
            assert_eq!(next, NEEDS_LARGER);
        }
    }
}

#[test]
fn beyond_the_widest_conduit_the_label_is_advisory() {
    // a third of C104 (101 mm across) holds 3 366 330 000 units
    let (name, fill) = recommend_conduit(3_366_330_000);
    assert_eq!(name, "C104 (104mm)");
    assert_eq!(fill.rounded_tenths(), 330);
    let (name, fill) = recommend_conduit(3_366_330_001);
    assert_eq!(name, "C104 이상 검토 필요");
    assert_eq!(fill, Percent { numerator: 100, denominator: 1 });
    assert_eq!(fill.rounded_tenths(), 1000);
    let (name, fill) = recommend_conduit(u128::MAX);
    assert_eq!(name, NEEDS_LARGER);
    assert_eq!(fill.rounded_tenths(), 1000);
}

#[test]
fn percent_rounds_to_the_nearest_tenth_with_halves_up() {
    assert_eq!(Percent { numerator: 1, denominator: 3 }.rounded_tenths(), 3);
    assert_eq!(Percent { numerator: 2, denominator: 3 }.rounded_tenths(), 7);
    assert_eq!(Percent { numerator: 1, denominator: 20 }.rounded_tenths(), 1);
    assert_eq!(Percent { numerator: 1, denominator: 21 }.rounded_tenths(), 0);
    assert_eq!(Percent { numerator: 2776, denominator: 100 }.rounded_tenths(), 278);
    assert_eq!(Percent { numerator: 2775, denominator: 100 }.rounded_tenths(), 278);
    assert_eq!(Percent { numerator: 2774, denominator: 100 }.rounded_tenths(), 277);
    assert_eq!(
        Percent { numerator: u64::MAX, denominator: 1 }.rounded_tenths(),
        10 * u64::MAX as u128
    );
    assert_eq!(Percent { numerator: u64::MAX, denominator: u64::MAX }.rounded_tenths(), 10);
}
